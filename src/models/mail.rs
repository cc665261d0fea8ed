use vstd::prelude::*;

verus! {

/// A mail request as it arrives in the body of a relay call.
#[derive(Clone, Debug, PartialEq)]
pub struct Mail {
    pub from: String,
    pub to: String,
    pub subject: String,
    pub body: String,
    pub cc: Option<String>,
    pub bcc: Option<String>,
}

impl Mail {
    /// A request without copy recipients.
    pub fn new(from: String, to: String, subject: String, body: String) -> (r: Mail)
        ensures
            r.from == from,
            r.to == to,
            r.subject == subject,
            r.body == body,
            r.cc is None,
            r.bcc is None,
    {
        Mail { from, to, subject, body, cc: None, bcc: None }
    }
}

} // verus!
