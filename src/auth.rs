use vstd::prelude::*;
use crate::error::RelayError;

verus! {

/// A byte that may stand in a header value read as text: visible ASCII or a tab.
pub open spec fn is_header_char(b: u8) -> bool {
    (32 <= b && b < 127) || b == 9
}

/// A header value that can be read as text.
pub open spec fn is_header_text(h: Seq<u8>) -> bool {
    forall|i: int| 0 <= i < h.len() ==> is_header_char(#[trigger] h[i])
}

pub open spec fn missing_key_message() -> Seq<char> {
    "X-API-KEY header missing"@
}

pub open spec fn unreadable_key_message() -> Seq<char> {
    "Invalid api key"@
}

pub open spec fn incorrect_key_message() -> Seq<char> {
    "Incorrect api key"@
}

/// The header is present and equal to the configured key byte for byte.
pub open spec fn key_accepted(header: Option<Seq<u8>>, api_key: Seq<u8>) -> bool {
    header == Some(api_key)
}

/// The message with which a presented key that is not the configured one is
/// refused: a header that cannot be read as text is named as such.
pub open spec fn key_refusal(header: Option<Seq<u8>>) -> Seq<char> {
    match header {
        None => missing_key_message(),
        Some(h) => if is_header_text(h) {
            incorrect_key_message()
        } else {
            unreadable_key_message()
        },
    }
}

pub open spec fn opt_bytes(h: Option<&[u8]>) -> Option<Seq<u8>> {
    match h {
        Some(b) => Some(b@),
        None => None,
    }
}

fn header_is_text(h: &[u8]) -> (r: bool)
    ensures
        r == is_header_text(h@),
{
    let mut i: usize = 0;
    while i < h.len()
        invariant
            0 <= i <= h.len(),
            forall|j: int| 0 <= j < i ==> is_header_char(#[trigger] h@[j]),
        decreases h.len() - i,
    {
        let b = h[i];
        if !((32 <= b && b < 127) || b == 9) {
            return false;
        }
        i = i + 1;
    }
    true
}

fn bytes_equal(a: &[u8], b: &[u8]) -> (r: bool)
    ensures
        r == (a@ == b@),
{
    if a.len() != b.len() {
        return false;
    }
    let mut i: usize = 0;
    while i < a.len()
        invariant
            a.len() == b.len(),
            0 <= i <= a.len(),
            forall|j: int| 0 <= j < i ==> a@[j] == b@[j],
        decreases a.len() - i,
    {
        if a[i] != b[i] {
            return false;
        }
        i = i + 1;
    }
    assert(a@ =~= b@);
    true
}

/// Checks the value of the `X-API-KEY` header, if one was sent, against the
/// configured key.
pub fn validate_api_key(header: Option<&[u8]>, api_key: &[u8]) -> (r: Result<(), RelayError>)
    ensures
        r is Ok <==> key_accepted(opt_bytes(header), api_key@),
        r matches Err(e) ==> e is Unauthorized && e.spec_message() == key_refusal(
            opt_bytes(header),
        ),
{
    proof {
        reveal_strlit("X-API-KEY header missing");
        reveal_strlit("Invalid api key");
        reveal_strlit("Incorrect api key");
    }
    match header {
        None => Err(RelayError::Unauthorized("X-API-KEY header missing".to_owned())),
        Some(h) => {
            if bytes_equal(h, api_key) {
                Ok(())
            } else if !header_is_text(h) {
                Err(RelayError::Unauthorized("Invalid api key".to_owned()))
            } else {
                Err(RelayError::Unauthorized("Incorrect api key".to_owned()))
            }
        },
    }
}

} // verus!
