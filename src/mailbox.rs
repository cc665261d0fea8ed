use vstd::prelude::*;

verus! {

#[verifier::external_type_specification]
#[verifier::external_body]
pub struct ExLettreMailbox(lettre::message::Mailbox);

#[verifier::external_type_specification]
#[verifier::external_body]
pub struct ExAddressError(lettre::address::AddressError);

/// What lettre reads from a mailbox string: the display name, if any, and the
/// address, or nothing where the string is no valid mailbox.
pub uninterp spec fn parsed_mailbox(s: Seq<char>) -> Option<(Option<Seq<char>>, Seq<char>)>;

/// The string reads as a mailbox.
pub open spec fn parses(s: Seq<char>) -> bool {
    parsed_mailbox(s) is Some
}

/// The address of a string that reads as a mailbox.
pub open spec fn email_of(s: Seq<char>) -> Seq<char> {
    parsed_mailbox(s).unwrap().1
}

pub open spec fn opt_view(s: Option<String>) -> Option<Seq<char>> {
    match s {
        Some(x) => Some(x@),
        None => None,
    }
}

/// A parsed mailbox: its name and address as text, beside lettre's own value.
pub struct ParsedMailbox {
    name: Option<String>,
    email: String,
    inner: lettre::message::Mailbox,
}

impl ParsedMailbox {
    pub closed spec fn spec_name(&self) -> Option<Seq<char>> {
        opt_view(self.name)
    }

    pub closed spec fn spec_email(&self) -> Seq<char> {
        self.email@
    }

    /// The display name and the address, as lettre reads them.
    pub open spec fn spec_view(&self) -> (Option<Seq<char>>, Seq<char>) {
        (self.spec_name(), self.spec_email())
    }

    /// The display name, if the mailbox has one.
    pub fn name(&self) -> (r: Option<String>)
        ensures
            opt_view(r) == self.spec_name(),
    {
        match &self.name {
            Some(n) => Some(n.clone()),
            None => None,
        }
    }

    /// The address, `local-part@domain`.
    pub fn email(&self) -> (r: &String)
        ensures
            r@ == self.spec_email(),
    {
        &self.email
    }

    pub(crate) fn lettre_mailbox(&self) -> &lettre::message::Mailbox {
        &self.inner
    }
}

/// Relies on `FromStr for lettre::message::Mailbox`, which parses
/// `Name <user@domain>` or `user@domain`, and on `Display for lettre::Address`,
/// which writes the address back as text. Both depend on the input alone.
#[verifier::external_body]
fn lettre_parse(s: &str) -> (r: Result<ParsedMailbox, lettre::address::AddressError>)
    ensures
        r is Ok <==> parsed_mailbox(s@) is Some,
        r matches Ok(m) ==> parsed_mailbox(s@) == Some((m.spec_name(), m.spec_email())),
{
    match s.parse::<lettre::message::Mailbox>() {
        Ok(m) => Ok(ParsedMailbox { name: m.name.clone(), email: m.email.to_string(), inner: m }),
        Err(e) => Err(e),
    }
}

/// Reads `s` as a mailbox, with or without a display name.
pub fn parse_mailbox(s: &str) -> (r: Option<ParsedMailbox>)
    ensures
        r is Some <==> parses(s@),
        r matches Some(m) ==> m.spec_email() == email_of(s@) && m.spec_name()
            == parsed_mailbox(s@).unwrap().0,
{
    match lettre_parse(s) {
        Ok(m) => Some(m),
        Err(_) => None,
    }
}

} // verus!
