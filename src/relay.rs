use vstd::prelude::*;
use crate::allowlist::Allowlist;
use crate::auth::{key_accepted, key_refusal, opt_bytes, validate_api_key};
use crate::error::{RelayError, ErrorKind, kind_status};
use crate::mailbox::{ParsedMailbox, parse_mailbox, parsed_mailbox, parses, email_of, opt_view};
use crate::message::{
    start_draft, draft_cc, draft_bcc, draft_subject, finish_draft, message_builds, opt_mailbox_view,
    MessageModel, OutgoingMessage,
};
use crate::models::mail::Mail;

verus! {

/// A request that passed every check, ready to be written as a message.
pub struct OutboundMessage {
    pub from: ParsedMailbox,
    pub to: ParsedMailbox,
    pub cc: Option<ParsedMailbox>,
    pub bcc: Option<ParsedMailbox>,
    pub subject: String,
    pub body: String,
}

/// An optional field is absent or reads as a mailbox.
pub open spec fn parses_if_present(s: Option<Seq<char>>) -> bool {
    match s {
        Some(x) => parses(x),
        None => true,
    }
}

/// The failure, if any, of the checks on a decoded request, in the order they
/// are made: sender syntax, sender allowlist, then recipients.
pub open spec fn mail_verdict(m: Mail, allowed: Set<Seq<char>>) -> Option<ErrorKind> {
    if !parses(m.from@) {
        Some(ErrorKind::BadRequest)
    } else if !allowed.contains(email_of(m.from@)) {
        Some(ErrorKind::Unauthorized)
    } else if !parses(m.to@) || !parses_if_present(opt_view(m.cc)) || !parses_if_present(
        opt_view(m.bcc),
    ) {
        Some(ErrorKind::BadRequest)
    } else {
        None
    }
}

/// The failure, if any, of all checks on a request: the API key first, then
/// the body (`None` where it could not be decoded), then its fields.
pub open spec fn request_verdict(
    header: Option<Seq<u8>>,
    api_key: Seq<u8>,
    allowed: Set<Seq<char>>,
    decoded: Option<Mail>,
) -> Option<ErrorKind> {
    if !key_accepted(header, api_key) {
        Some(ErrorKind::Unauthorized)
    } else {
        match decoded {
            None => Some(ErrorKind::BadRequest),
            Some(m) => mail_verdict(m, allowed),
        }
    }
}

pub open spec fn decoded_mail(decoded: Result<Mail, String>) -> Option<Mail> {
    match decoded {
        Ok(m) => Some(m),
        Err(_) => None,
    }
}

/// The message that names a sender outside the allowlist.
pub open spec fn not_allowed_message(email: Seq<char>) -> Seq<char> {
    "Not allowed to send from '"@ + email + "'"@
}

/// A parsed mailbox holds what lettre reads from `s`: its address and its
/// display name.
pub open spec fn mailbox_matches(m: ParsedMailbox, s: Seq<char>) -> bool {
    &&& parses(s)
    &&& m.spec_email() == email_of(s)
    &&& m.spec_name() == parsed_mailbox(s).unwrap().0
}

pub open spec fn opt_mailbox_matches(m: Option<ParsedMailbox>, s: Option<Seq<char>>) -> bool {
    match (m, s) {
        (None, None) => true,
        (Some(b), Some(t)) => mailbox_matches(b, t),
        _ => false,
    }
}

/// The message of a refusal for want of authorisation: the key's, or else the
/// sender's.
pub open spec fn unauthorized_message(
    header: Option<Seq<u8>>,
    api_key: Seq<u8>,
    decoded: Option<Mail>,
) -> Seq<char> {
    if !key_accepted(header, api_key) {
        key_refusal(header)
    } else {
        not_allowed_message(email_of(decoded.unwrap().from@))
    }
}

fn parse_field(s: &str) -> (r: Result<ParsedMailbox, RelayError>)
    ensures
        r is Ok <==> parses(s@),
        r matches Ok(m) ==> mailbox_matches(m, s@),
        r matches Err(e) ==> e is BadRequest,
{
    match parse_mailbox(s) {
        Some(m) => Ok(m),
        None => {
            let mut msg = "Invalid mailbox '".to_owned();
            msg.append(s);
            msg.append("'");
            Err(RelayError::BadRequest(msg))
        },
    }
}

fn parse_optional_field(s: &Option<String>) -> (r: Result<Option<ParsedMailbox>, RelayError>)
    ensures
        r is Ok <==> parses_if_present(opt_view(*s)),
        r matches Ok(m) ==> opt_mailbox_matches(m, opt_view(*s)),
        r matches Err(e) ==> e is BadRequest,
{
    match s {
        Some(t) => match parse_field(t.as_str()) {
            Ok(m) => Ok(Some(m)),
            Err(e) => Err(e),
        },
        None => Ok(None),
    }
}

/// Checks the fields of a decoded request against the allowlist and reads its
/// addresses.
pub fn check_mail(mail: &Mail, allowlist: &Allowlist) -> (r: Result<OutboundMessage, RelayError>)
    ensures
        r is Ok <==> mail_verdict(*mail, allowlist@) is None,
        r matches Err(e) ==> Some(e.spec_kind()) == mail_verdict(*mail, allowlist@),
        r matches Err(e) ==> (e is Unauthorized ==> e.spec_message() == not_allowed_message(
            email_of(mail.from@),
        )),
        r matches Ok(o) ==> {
            &&& mailbox_matches(o.from, mail.from@)
            &&& mailbox_matches(o.to, mail.to@)
            &&& opt_mailbox_matches(o.cc, opt_view(mail.cc))
            &&& opt_mailbox_matches(o.bcc, opt_view(mail.bcc))
            &&& o.subject == mail.subject
            &&& o.body == mail.body
        },
{
    let from = match parse_field(mail.from.as_str()) {
        Ok(m) => m,
        Err(e) => return Err(e),
    };
    if !allowlist.is_allowed(from.email()) {
        let mut msg = "Not allowed to send from '".to_owned();
        msg.append(from.email().as_str());
        msg.append("'");
        proof {
            reveal_strlit("Not allowed to send from '");
            reveal_strlit("'");
        }
        return Err(RelayError::Unauthorized(msg));
    }
    let to = match parse_field(mail.to.as_str()) {
        Ok(m) => m,
        Err(e) => return Err(e),
    };
    let cc = match parse_optional_field(&mail.cc) {
        Ok(m) => m,
        Err(e) => return Err(e),
    };
    let bcc = match parse_optional_field(&mail.bcc) {
        Ok(m) => m,
        Err(e) => return Err(e),
    };
    Ok(
        OutboundMessage {
            from,
            to,
            cc,
            bcc,
            subject: mail.subject.clone(),
            body: mail.body.clone(),
        },
    )
}

/// The mailbox that lettre reads from an optional field.
pub open spec fn opt_parsed(s: Option<Seq<char>>) -> Option<(Option<Seq<char>>, Seq<char>)> {
    match s {
        Some(x) => Some(parsed_mailbox(x).unwrap()),
        None => None,
    }
}

/// The mailboxes of a checked request: sender, recipient, copy and blind copy.
pub open spec fn outbound_mailboxes(o: OutboundMessage) -> (
    (Option<Seq<char>>, Seq<char>),
    (Option<Seq<char>>, Seq<char>),
    Option<(Option<Seq<char>>, Seq<char>)>,
    Option<(Option<Seq<char>>, Seq<char>)>,
) {
    (o.from.spec_view(), o.to.spec_view(), opt_mailbox_view(o.cc), opt_mailbox_view(o.bcc))
}

/// The message that a checked request becomes.
pub open spec fn outbound_model(o: OutboundMessage) -> MessageModel {
    MessageModel {
        from: o.from.spec_view(),
        to: o.to.spec_view(),
        cc: opt_mailbox_view(o.cc),
        bcc: opt_mailbox_view(o.bcc),
        subject: Some(o.subject@),
        body: o.body@,
    }
}

/// The mailboxes that lettre reads from the fields of a request.
pub open spec fn request_mailboxes(m: Mail) -> (
    (Option<Seq<char>>, Seq<char>),
    (Option<Seq<char>>, Seq<char>),
    Option<(Option<Seq<char>>, Seq<char>)>,
    Option<(Option<Seq<char>>, Seq<char>)>,
) {
    (
        parsed_mailbox(m.from@).unwrap(),
        parsed_mailbox(m.to@).unwrap(),
        opt_parsed(opt_view(m.cc)),
        opt_parsed(opt_view(m.bcc)),
    )
}

/// The message that a request becomes: its parsed mailboxes, subject and body.
pub open spec fn request_model(m: Mail) -> MessageModel {
    MessageModel {
        from: parsed_mailbox(m.from@).unwrap(),
        to: parsed_mailbox(m.to@).unwrap(),
        cc: opt_parsed(opt_view(m.cc)),
        bcc: opt_parsed(opt_view(m.bcc)),
        subject: Some(m.subject@),
        body: m.body@,
    }
}

pub open spec fn build_failure_message() -> Seq<char> {
    "Unable to build message"@
}

/// Writes a checked request as a message for the upstream server. Where lettre
/// cannot build it, the request is a bad one.
pub fn compose_message(o: &OutboundMessage) -> (r: Result<OutgoingMessage, RelayError>)
    ensures
        r is Ok <==> message_builds(outbound_mailboxes(*o)),
        r matches Ok(m) ==> m.spec_model() == outbound_model(*o),
        r matches Err(e) ==> e is BadRequest && e.spec_message() == build_failure_message(),
{
    let mut d = start_draft(&o.from, &o.to);
    match &o.cc {
        Some(m) => {
            d = draft_cc(d, m);
        },
        None => {},
    }
    match &o.bcc {
        Some(m) => {
            d = draft_bcc(d, m);
        },
        None => {},
    }
    d = draft_subject(d, &o.subject);
    proof {
        reveal_strlit("Unable to build message");
    }
    match finish_draft(d, &o.body) {
        Some(msg) => Ok(msg),
        None => Err(RelayError::BadRequest("Unable to build message".to_owned())),
    }
}

proof fn lemma_matches_view(m: ParsedMailbox, s: Seq<char>)
    requires
        mailbox_matches(m, s),
    ensures
        m.spec_view() == parsed_mailbox(s).unwrap(),
{
}

proof fn lemma_opt_matches_view(m: Option<ParsedMailbox>, s: Option<Seq<char>>)
    requires
        opt_mailbox_matches(m, s),
    ensures
        opt_mailbox_view(m) == opt_parsed(s),
{
    match (m, s) {
        (Some(b), Some(t)) => lemma_matches_view(b, t),
        _ => {},
    }
}

/// Runs every check on a request up to the message that goes upstream: the
/// `X-API-KEY` header against the configured key, the decoded body (or the
/// text of the decoding failure), the allowlist and the recipients. A message
/// comes back only where every check passed; nothing is sent here.
pub fn prepare_mail(
    header: Option<&[u8]>,
    api_key: &[u8],
    allowlist: &Allowlist,
    decoded: Result<Mail, String>,
) -> (r: Result<OutgoingMessage, RelayError>)
    ensures
        request_verdict(opt_bytes(header), api_key@, allowlist@, decoded_mail(decoded)) matches Some(k)
            ==> (r matches Err(e) && e.spec_kind() == k),
        request_verdict(opt_bytes(header), api_key@, allowlist@, decoded_mail(decoded)) is None
            ==> {
            &&& r is Ok <==> message_builds(request_mailboxes(decoded->Ok_0))
            &&& r matches Ok(msg) ==> msg.spec_model() == request_model(decoded->Ok_0)
            &&& r matches Err(e) ==> e is BadRequest
        },
        r matches Err(e) ==> (e is Unauthorized ==> e.spec_message() == unauthorized_message(
            opt_bytes(header),
            api_key@,
            decoded_mail(decoded),
        )),
        key_accepted(opt_bytes(header), api_key@) && decoded is Err ==> (r matches Err(e)
            && e.spec_message() == decoded->Err_0@),
{
    match validate_api_key(header, api_key) {
        Ok(()) => {},
        Err(e) => return Err(e),
    }
    let mail = match decoded {
        Ok(m) => m,
        Err(t) => return Err(RelayError::BadRequest(t)),
    };
    match check_mail(&mail, allowlist) {
        Ok(o) => {
            proof {
                lemma_matches_view(o.from, mail.from@);
                lemma_matches_view(o.to, mail.to@);
                lemma_opt_matches_view(o.cc, opt_view(mail.cc));
                lemma_opt_matches_view(o.bcc, opt_view(mail.bcc));
                assert(outbound_mailboxes(o) == request_mailboxes(mail));
                assert(outbound_model(o) == request_model(mail));
            }
            compose_message(&o)
        },
        Err(e) => Err(e),
    }
}

/// The result of a request given what the upstream server answered to the
/// one send attempt: the server's error text becomes an upstream failure.
pub fn send_outcome(sent: Result<(), String>) -> (r: Result<(), RelayError>)
    ensures
        sent is Ok <==> r is Ok,
        sent matches Err(t) ==> r matches Err(e) && e is UpstreamError && e.spec_message() == t@,
{
    match sent {
        Ok(()) => Ok(()),
        Err(t) => Err(RelayError::UpstreamError(t)),
    }
}

/// The HTTP status and body that answer a request.
pub fn response_of(r: &Result<(), RelayError>) -> (res: (u16, String))
    ensures
        r is Ok ==> res.0 == 200 && res.1@ == Seq::<char>::empty(),
        r matches Err(e) ==> res.0 == kind_status(e.spec_kind()) && res.1@ == e.spec_message(),
{
    match r {
        Ok(()) => (200, String::new()),
        Err(e) => (e.status_code(), e.message()),
    }
}

} // verus!
