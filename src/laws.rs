use vstd::prelude::*;
use crate::auth::{key_accepted, key_refusal};
use crate::config::config_fault;
use crate::error::{ErrorKind, kind_status};
use crate::mailbox::{parses, email_of, opt_view};
use crate::metrics::{Outcome, outcome_for, label_text};
use crate::models::mail::Mail;
use crate::relay::{request_verdict, parses_if_present};

verus! {

/// A sender outside the allowlist is refused as unauthorised, whatever key
/// was presented, so no message is built and nothing is sent.
pub proof fn lemma_unlisted_sender_refused(
    header: Option<Seq<u8>>,
    api_key: Seq<u8>,
    allowed: Set<Seq<char>>,
    m: Mail,
)
    requires
        parses(m.from@),
        !allowed.contains(email_of(m.from@)),
    ensures
        request_verdict(header, api_key, allowed, Some(m)) == Some(ErrorKind::Unauthorized),
{
}

/// With the right key, a sender on the allowlist and readable recipients, the
/// request passes every check, and a successful send is counted under
/// `success` and not under `error`.
pub proof fn lemma_listed_sender_passes(
    header: Option<Seq<u8>>,
    api_key: Seq<u8>,
    allowed: Set<Seq<char>>,
    m: Mail,
)
    requires
        key_accepted(header, api_key),
        parses(m.from@),
        allowed.contains(email_of(m.from@)),
        parses(m.to@),
        parses_if_present(opt_view(m.cc)),
        parses_if_present(opt_view(m.bcc)),
    ensures
        request_verdict(header, api_key, allowed, Some(m)) is None,
        outcome_for(true) == Outcome::Success,
        label_text(outcome_for(true)) == "success"@,
        label_text(outcome_for(true)) != label_text(Outcome::Failure),
{
    reveal_strlit("success");
    reveal_strlit("error");
    assert("success"@[0] != "error"@[0]);
}

/// A body that cannot be decoded is refused as a bad request once the key is
/// accepted, before any message is built.
pub proof fn lemma_malformed_body_refused(
    header: Option<Seq<u8>>,
    api_key: Seq<u8>,
    allowed: Set<Seq<char>>,
)
    requires
        key_accepted(header, api_key),
    ensures
        request_verdict(header, api_key, allowed, None) == Some(ErrorKind::BadRequest),
{
}

/// A missing key and a wrong key are both refused as unauthorised, with the
/// same status; only their messages differ.
pub proof fn lemma_key_failures_alike(
    h: Seq<u8>,
    api_key: Seq<u8>,
    allowed: Set<Seq<char>>,
    decoded: Option<Mail>,
)
    requires
        h != api_key,
    ensures
        request_verdict(None, api_key, allowed, decoded) == Some(ErrorKind::Unauthorized),
        request_verdict(Some(h), api_key, allowed, decoded) == Some(ErrorKind::Unauthorized),
        kind_status(ErrorKind::Unauthorized) == 401,
        key_refusal(None) != key_refusal(Some(h)),
{
    reveal_strlit("X-API-KEY header missing");
    reveal_strlit("Invalid api key");
    reveal_strlit("Incorrect api key");
    assert("X-API-KEY header missing"@[0] != "Invalid api key"@[0]);
    assert("X-API-KEY header missing"@[0] != "Incorrect api key"@[0]);
}

/// A user name without a password, or a password without a user name, stops
/// the gateway at startup, whatever the other values are.
pub proof fn lemma_partial_credentials_refused(
    api_key: Option<String>,
    smtp_host: Option<String>,
    smtp_user: Option<String>,
    smtp_password: Option<String>,
    tls_cert: Option<String>,
    tls_domain: Option<String>,
)
    requires
        smtp_user is Some != smtp_password is Some,
    ensures
        config_fault(api_key, smtp_host, smtp_user, smtp_password, tls_cert, tls_domain) is Some,
{
}

} // verus!
