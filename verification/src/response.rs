//! Reading the service's reply: the address of the new paste, or the reason
//! why there is none.

use crate::error::{outcome_view, ErrorView, PastebinError};
use crate::request::Text;
use crate::text::{starts_with, str_eq};
use vstd::prelude::*;

verus! {

/// How every address of a created paste begins.
pub const PASTEBIN_URL_START: &'static str = "https://pastebin.com";

/// The service's words for a credential that it does not accept.
pub const REPLY_INVALID_KEY: &'static str = "invalid api_dev_key";

/// The service's words for an address that it has blocked.
pub const REPLY_BLOCKED_IP: &'static str = "IP blocked";

/// The service's words for a syntax identifier that it does not know.
pub const REPLY_INVALID_FORMAT: &'static str = "invalid api_paste_format";

/// What a reply body means. A body that begins with the address prefix is
/// the paste's address, whole. Any other body is an error message: one of the
/// three known phrases, matched in full, or else unknown and kept verbatim.
pub open spec fn body_outcome(body: Text) -> Result<Text, ErrorView> {
    if PASTEBIN_URL_START@.is_prefix_of(body) {
        Ok(body)
    } else if body == REPLY_INVALID_KEY@ {
        Err(ErrorView::InvalidKey)
    } else if body == REPLY_BLOCKED_IP@ {
        Err(ErrorView::BlockedIP)
    } else if body == REPLY_INVALID_FORMAT@ {
        Err(ErrorView::InvalidPasteFormat)
    } else {
        Err(ErrorView::Unknown(body))
    }
}

/// What the transport hands back, as contracts speak of it: the reply's body,
/// or a rendering of the failure that kept the round trip from completing.
pub open spec fn reply_view(reply: Result<String, String>) -> Result<Text, Text> {
    match reply {
        Ok(body) => Ok(body@),
        Err(failure) => Err(failure@),
    }
}

/// What a round trip means: the meaning of the body where there is one, and
/// an unknown error that carries the rendering where the transport failed.
pub open spec fn reply_outcome(reply: Result<Text, Text>) -> Result<Text, ErrorView> {
    match reply {
        Ok(body) => body_outcome(body),
        Err(failure) => Err(ErrorView::Unknown(failure)),
    }
}

/// Classifies the body of a reply.
pub fn classify_body(body: String) -> (r: Result<String, PastebinError>)
    ensures
        outcome_view(r) == body_outcome(body@),
{
    if starts_with(body.as_str(), PASTEBIN_URL_START) {
        Ok(body)
    } else if str_eq(body.as_str(), REPLY_INVALID_KEY) {
        Err(PastebinError::InvalidKey)
    } else if str_eq(body.as_str(), REPLY_BLOCKED_IP) {
        Err(PastebinError::BlockedIP)
    } else if str_eq(body.as_str(), REPLY_INVALID_FORMAT) {
        Err(PastebinError::InvalidPasteFormat)
    } else {
        Err(PastebinError::Unknown(body))
    }
}

/// Classifies what the transport handed back after one round trip.
pub fn classify_reply(reply: Result<String, String>) -> (r: Result<String, PastebinError>)
    ensures
        outcome_view(r) == reply_outcome(reply_view(reply)),
{
    match reply {
        Ok(body) => classify_body(body),
        Err(failure) => Err(PastebinError::Unknown(failure)),
    }
}

/// Classification is decided by the body alone and covers every body: a body
/// with the address prefix is a success that carries the body itself; of the
/// others, exactly the three known phrases give their own errors, and every
/// remaining body gives the unknown error that carries the body. The two
/// errors of the content checks never come from a reply.
pub proof fn lemma_body_outcome(body: Text)
    ensures
        body_outcome(body) is Ok <==> PASTEBIN_URL_START@.is_prefix_of(body),
        body_outcome(body) is Ok ==> body_outcome(body) == Ok::<Text, ErrorView>(body),
        body_outcome(body) == Err::<Text, ErrorView>(ErrorView::InvalidKey) <==> body
            == REPLY_INVALID_KEY@,
        body_outcome(body) == Err::<Text, ErrorView>(ErrorView::BlockedIP) <==> body
            == REPLY_BLOCKED_IP@,
        body_outcome(body) == Err::<Text, ErrorView>(ErrorView::InvalidPasteFormat) <==> body
            == REPLY_INVALID_FORMAT@,
        body_outcome(body) == Err::<Text, ErrorView>(ErrorView::Unknown(body)) <==> !(
        PASTEBIN_URL_START@.is_prefix_of(body) || body == REPLY_INVALID_KEY@ || body
            == REPLY_BLOCKED_IP@ || body == REPLY_INVALID_FORMAT@),
        body_outcome(body) != Err::<Text, ErrorView>(ErrorView::EmptyPasteContent),
        body_outcome(body) != Err::<Text, ErrorView>(ErrorView::PasteTooBig),
{
    reveal_strlit("https://pastebin.com");
    reveal_strlit("invalid api_dev_key");
    reveal_strlit("IP blocked");
    reveal_strlit("invalid api_paste_format");
    assert(PASTEBIN_URL_START@.len() == 20 && PASTEBIN_URL_START@[0] == 'h');
    assert(REPLY_INVALID_KEY@.len() == 19);
    assert(REPLY_BLOCKED_IP@.len() == 10);
    assert(REPLY_INVALID_FORMAT@.len() == 24 && REPLY_INVALID_FORMAT@[0] == 'i');
    if PASTEBIN_URL_START@.is_prefix_of(body) {
        assert(body.subrange(0, 20)[0] == body[0]);
    }
}

} // verus!
