//! The chat payload carried inside a bundle: a compression flag and the
//! message text.

use vstd::prelude::*;

verus! {

/// What `char::is_whitespace` says of a character (Unicode `White_Space`).
pub uninterp spec fn white_space(c: char) -> bool;

/// The payload bytes that the chat convention gives a text and a
/// compression flag.
pub uninterp spec fn sms_payload(text: Seq<char>, compressed: bool) -> Seq<u8>;

pub open spec fn trim_start_of(s: Seq<char>) -> Seq<char>
    decreases s.len(),
{
    if s.len() > 0 && white_space(s[0]) {
        trim_start_of(s.skip(1))
    } else {
        s
    }
}

pub open spec fn trim_end_of(s: Seq<char>) -> Seq<char>
    decreases s.len(),
{
    if s.len() > 0 && white_space(s.last()) {
        trim_end_of(s.drop_last())
    } else {
        s
    }
}

/// A text without its leading and trailing whitespace.
pub open spec fn trimmed(s: Seq<char>) -> Seq<char> {
    trim_end_of(trim_start_of(s))
}

/// A decoded chat payload.
#[derive(Clone, Debug)]
pub struct ChatMessage {
    pub compressed: bool,
    pub text: String,
}

/// Relies on `char::is_whitespace`.
#[verifier::external_body]
pub(crate) fn is_white_space(c: char) -> (r: bool)
    ensures
        r == white_space(c),
{
    c.is_whitespace()
}

/// Relies on `str::trim`: leading and trailing whitespace removed.
#[verifier::external_body]
pub(crate) fn trim(s: &str) -> (r: &str)
    ensures
        r@ == trimmed(s@),
{
    s.trim()
}

/// Relies on `str::trim_start`: leading whitespace removed.
#[verifier::external_body]
pub(crate) fn trim_start(s: &str) -> (r: &str)
    ensures
        r@ == trim_start_of(s@),
{
    s.trim_start()
}

/// Relies on `dtn7_plus::sms::SmsBuilder` (which compresses with smaz when
/// asked, and builds whenever a message is set) and `serde_cbor::to_vec`,
/// which writes the payload record into a `Vec` and cannot fail on it.
#[verifier::external_body]
fn sms_payload_bytes(text: &str, compress: bool) -> (r: Option<Vec<u8>>)
    ensures
        r is Some,
        r.unwrap()@ == sms_payload(text@, compress),
{
    let sms = dtn7_plus::sms::SmsBuilder::new().compression(compress).message(text).build().ok()?;
    serde_cbor::to_vec(&sms).ok()
}

/// The payload for a chat text: trimmed, then compressed if asked, then
/// framed with its compression flag.
pub fn encode(text: &str, compress: bool) -> (r: Vec<u8>)
    ensures
        r@ == sms_payload(trimmed(text@), compress),
{
    let t = trim(text);
    sms_payload_bytes(t, compress).unwrap()
}

} // verus!
