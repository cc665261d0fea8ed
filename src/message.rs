use vstd::prelude::*;
use crate::mailbox::ParsedMailbox;

verus! {

#[verifier::external_type_specification]
#[verifier::external_body]
pub struct ExMessage(lettre::Message);

#[verifier::external_type_specification]
#[verifier::external_body]
pub struct ExMessageBuilder(lettre::message::MessageBuilder);

#[verifier::external_type_specification]
#[verifier::external_body]
pub struct ExEmailError(lettre::error::Error);

/// Whether lettre can finish a message with these mailboxes (display name and
/// address) in its `From`, `To`, `Cc` and `Bcc` headers. Finishing reads the
/// headers back from their text, which some addresses do not survive.
pub uninterp spec fn message_builds(
    mailboxes: (
        (Option<Seq<char>>, Seq<char>),
        (Option<Seq<char>>, Seq<char>),
        Option<(Option<Seq<char>>, Seq<char>)>,
        Option<(Option<Seq<char>>, Seq<char>)>,
    ),
) -> bool;

/// What a message holds: its mailboxes, subject and body.
pub struct MessageModel {
    pub from: (Option<Seq<char>>, Seq<char>),
    pub to: (Option<Seq<char>>, Seq<char>),
    pub cc: Option<(Option<Seq<char>>, Seq<char>)>,
    pub bcc: Option<(Option<Seq<char>>, Seq<char>)>,
    pub subject: Option<Seq<char>>,
    pub body: Seq<char>,
}

pub open spec fn opt_mailbox_view(m: Option<ParsedMailbox>) -> Option<(Option<Seq<char>>, Seq<char>)> {
    match m {
        Some(b) => Some(b.spec_view()),
        None => None,
    }
}

/// A message under construction, with what has been put into it so far.
/// Only the functions of this module make or change one, each calling the
/// builder method that its model records, once.
pub struct Draft {
    builder: lettre::message::MessageBuilder,
    model: Ghost<MessageModel>,
}

impl Draft {
    pub closed spec fn spec_model(&self) -> MessageModel {
        self.model@
    }

    /// The mailboxes that decide whether the draft can be finished.
    pub open spec fn spec_mailboxes(&self) -> (
        (Option<Seq<char>>, Seq<char>),
        (Option<Seq<char>>, Seq<char>),
        Option<(Option<Seq<char>>, Seq<char>)>,
        Option<(Option<Seq<char>>, Seq<char>)>,
    ) {
        let m = self.spec_model();
        (m.from, m.to, m.cc, m.bcc)
    }
}

/// A finished message for the upstream server, with what it holds.
pub struct OutgoingMessage {
    message: lettre::Message,
    model: Ghost<MessageModel>,
}

impl OutgoingMessage {
    pub closed spec fn spec_model(&self) -> MessageModel {
        self.model@
    }

    /// The message as lettre sends it.
    pub fn message(&self) -> &lettre::Message {
        &self.message
    }
}

/// Relies on `lettre::Message::builder`, `MessageBuilder::from` and
/// `MessageBuilder::to`: a fresh builder with one sender and one recipient.
#[verifier::external_body]
fn builder_with(from: &ParsedMailbox, to: &ParsedMailbox) -> lettre::message::MessageBuilder {
    lettre::Message::builder().from(from.lettre_mailbox().clone()).to(to.lettre_mailbox().clone())
}

/// Relies on `MessageBuilder::cc`: adds a `Cc` recipient.
#[verifier::external_body]
fn builder_cc(b: lettre::message::MessageBuilder, m: &ParsedMailbox) -> lettre::message::MessageBuilder {
    b.cc(m.lettre_mailbox().clone())
}

/// Relies on `MessageBuilder::bcc`: adds a `Bcc` recipient.
#[verifier::external_body]
fn builder_bcc(b: lettre::message::MessageBuilder, m: &ParsedMailbox) -> lettre::message::MessageBuilder {
    b.bcc(m.lettre_mailbox().clone())
}

/// Relies on `MessageBuilder::subject`: sets the `Subject` header.
#[verifier::external_body]
fn builder_subject(b: lettre::message::MessageBuilder, s: &String) -> lettre::message::MessageBuilder {
    b.subject(s.clone())
}

/// Relies on `MessageBuilder::body`: it reads the `From`, `To`, `Cc` and `Bcc`
/// headers back and fails where no sender or no recipient survives that;
/// nothing else of a draft decides it.
#[verifier::external_body]
fn builder_body(d: Draft, s: &String) -> (r: Result<lettre::Message, lettre::error::Error>)
    ensures
        r is Ok <==> message_builds(d.spec_mailboxes()),
{
    d.builder.body(s.clone())
}

/// A draft from one sender to one recipient.
pub fn start_draft(from: &ParsedMailbox, to: &ParsedMailbox) -> (d: Draft)
    ensures
        d.spec_model() == (MessageModel {
            from: from.spec_view(),
            to: to.spec_view(),
            cc: None,
            bcc: None,
            subject: None,
            body: Seq::empty(),
        }),
{
    let ghost model = MessageModel {
        from: from.spec_view(),
        to: to.spec_view(),
        cc: None,
        bcc: None,
        subject: None,
        body: Seq::empty(),
    };
    Draft { builder: builder_with(from, to), model: Ghost(model) }
}

/// Adds the copy recipient of a draft that has none yet.
pub fn draft_cc(d: Draft, m: &ParsedMailbox) -> (r: Draft)
    requires
        d.spec_model().cc is None,
    ensures
        r.spec_model() == (MessageModel { cc: Some(m.spec_view()), ..d.spec_model() }),
{
    let ghost model = MessageModel { cc: Some(m.spec_view()), ..d.model@ };
    Draft { builder: builder_cc(d.builder, m), model: Ghost(model) }
}

/// Adds the blind copy recipient of a draft that has none yet.
pub fn draft_bcc(d: Draft, m: &ParsedMailbox) -> (r: Draft)
    requires
        d.spec_model().bcc is None,
    ensures
        r.spec_model() == (MessageModel { bcc: Some(m.spec_view()), ..d.spec_model() }),
{
    let ghost model = MessageModel { bcc: Some(m.spec_view()), ..d.model@ };
    Draft { builder: builder_bcc(d.builder, m), model: Ghost(model) }
}

/// Sets the subject of a draft that has none yet.
pub fn draft_subject(d: Draft, s: &String) -> (r: Draft)
    requires
        d.spec_model().subject is None,
    ensures
        r.spec_model() == (MessageModel { subject: Some(s@), ..d.spec_model() }),
{
    let ghost model = MessageModel { subject: Some(s@), ..d.model@ };
    Draft { builder: builder_subject(d.builder, s), model: Ghost(model) }
}

/// Finishes a draft with its body, where lettre can build it.
pub fn finish_draft(d: Draft, s: &String) -> (r: Option<OutgoingMessage>)
    ensures
        r is Some <==> message_builds(d.spec_mailboxes()),
        r matches Some(m) ==> m.spec_model() == (MessageModel { body: s@, ..d.spec_model() }),
{
    let ghost model = MessageModel { body: s@, ..d.model@ };
    match builder_body(d, s) {
        Ok(message) => Some(OutgoingMessage { message, model: Ghost(model) }),
        Err(_) => None,
    }
}

} // verus!
