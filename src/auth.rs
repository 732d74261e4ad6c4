//! The AUTHENTICATE exchange: server challenges are base64 text, the
//! authenticator's answers go back as base64 lines.
use vstd::prelude::*;
use vstd::string::StringSliceAdditionalSpecFns;
use vstd::utf8::encode_utf8;
use crate::error::{Error, ParseError};
use crate::response::{Response, ResponseData};
use crate::router::{complete, completes, completion, handle_unilateral, is_completion, routed, Step};

verus! {

/// The bytes that the base64 text `s` (standard alphabet; padding may be
/// left out) decodes to, or `None` where `s` is not such text.
pub uninterp spec fn base64_decoded(s: Seq<char>) -> Option<Seq<u8>>;

/// The base64 text (standard alphabet, padded) of the bytes `b`.
pub uninterp spec fn base64_encoded(b: Seq<u8>) -> Seq<char>;

/// Relies on `base64::decode`: the bytes the standard-alphabet text decodes
/// to, or an error (here `None`) where it is not valid base64.
#[verifier::external_body]
fn decode_base64(text: &str) -> (r: Option<Vec<u8>>)
    ensures
        match base64_decoded(text@) {
            Some(b) => r matches Some(v) && v@ == b,
            None => r is None,
        },
{
    base64::decode(text).ok()
}

/// Relies on `base64::encode`: the standard-alphabet, padded text of the
/// bytes; empty input gives empty text.
#[verifier::external_body]
fn encode_base64(bytes: &[u8]) -> (r: String)
    ensures
        r@ == base64_encoded(bytes@),
        bytes@.len() == 0 ==> r@.len() == 0,
{
    base64::encode(bytes)
}

/// What a decoded challenge gives: the bytes, or an authentication error
/// naming the text when it was not base64.
pub fn challenge_from_decoded(text: &str, decoded: Option<Vec<u8>>) -> (r: Result<Vec<u8>, Error>)
    ensures
        match decoded {
            Some(b) => r matches Ok(v) && v@ == b@,
            None => r matches Err(Error::Parse(ParseError::Authentication(t))) && t@ == text@,
        },
{
    match decoded {
        Some(b) => Ok(b),
        None => Err(Error::Parse(ParseError::Authentication(text.to_owned()))),
    }
}

/// The challenge of a continuation request: no text is an empty challenge,
/// else the text is decoded from base64.
pub fn auth_challenge(information: Option<&str>) -> (r: Result<Vec<u8>, Error>)
    ensures
        match information {
            None => r matches Ok(v) && v@.len() == 0,
            Some(t) => match base64_decoded(t@) {
                Some(b) => r matches Ok(v) && v@ == b,
                None => r matches Err(Error::Parse(ParseError::Authentication(s))) && s@ == t@,
            },
        },
{
    match information {
        None => Ok(Vec::new()),
        Some(t) => challenge_from_decoded(t, decode_base64(t)),
    }
}

/// The line the client sends for the authenticator's `response`: its
/// base64 text.
pub fn auth_response_line(response: &[u8]) -> (r: Vec<u8>)
    ensures
        r@ == encode_utf8(base64_encoded(response@)),
{
    let text = encode_base64(response);
    let mut out: Vec<u8> = Vec::new();
    crate::text::push_text(&mut out, text.as_str());
    out
}

/// One response while AUTHENTICATE is in flight: a continuation request is
/// a challenge for the authenticator; the tagged completion ends the exchange.
pub fn auth_step(tag: &[u8], d: ResponseData) -> (r: Step<Vec<u8>>)
    ensures
        completes(tag@, d) ==> r == completion::<Vec<u8>>(d),
        !completes(tag@, d) ==> match d.spec_parsed() {
            Response::Continue { information, .. } => match information {
                None => r matches Step::Item(v) && v@.len() == 0,
                Some(t) => match base64_decoded(t@) {
                    Some(b) => r matches Step::Item(v) && v@ == b,
                    None => r matches Step::Failed(Error::Parse(ParseError::Authentication(s))) && s@ == t@,
                },
            },
            _ => r == routed::<Vec<u8>>(d),
        },
{
    if is_completion(tag, &d) {
        return complete(d);
    }
    match d.parsed() {
        Response::Continue { information, .. } => {
            let text: Option<&str> = match information {
                Some(s) => Some(s.as_str()),
                None => None,
            };
            match auth_challenge(text) {
                Ok(v) => Step::Item(v),
                Err(e) => Step::Failed(e),
            }
        },
        _ => Step::Route(handle_unilateral(d)),
    }
}

} // verus!
