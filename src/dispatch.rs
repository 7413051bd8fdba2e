//! Outbound commands and what the single writer puts on the connection for
//! each of them.

use vstd::prelude::*;
use vstd::string::StrSliceExecFns;
use crate::endpoint::{uri, ChatError, Endpoint};
use crate::text::starts_with;

verus! {

/// Bundle control flag that asks for a delivery report.
pub const REQUEST_DELIVERY: u64 = 0x020000;

/// A chat bundle to be built and sent.
#[derive(Debug)]
pub struct Outgoing {
    pub src: Endpoint,
    pub dst: Endpoint,
    pub report_to: Endpoint,
    pub delivery_notification: bool,
    /// Lifetime in milliseconds.
    pub lifetime_ms: u64,
    pub data: Vec<u8>,
}

/// A command for the writer of the connection.
#[derive(Debug)]
pub enum WsCommand {
    /// A control command such as a subscription.
    Text(String),
    /// A chat payload to send in a bundle.
    SendData(Outgoing),
}

/// A frame on the connection.
#[derive(Debug)]
pub enum Frame {
    Text(String),
    Binary(Vec<u8>),
}

pub open spec fn contains_seq(s: Seq<char>, p: Seq<char>) -> bool {
    exists|i: int| 0 <= i && i + p.len() <= s.len() && #[trigger] s.subrange(i, i + p.len()) == p
}

/// The control flags of an outbound bundle: a delivery report is asked for
/// when the sender wants one, unless the destination is a gateway whose URI
/// holds `sms2`.
pub open spec fn control_flags_of(o: &Outgoing) -> u64 {
    if o.delivery_notification && !contains_seq(uri(o.dst@), "sms2"@) {
        REQUEST_DELIVERY
    } else {
        0
    }
}

/// Whether `p` stands somewhere in `s`.
fn str_contains(s: &str, p: &str) -> (r: bool)
    ensures
        r == contains_seq(s@, p@),
{
    let n = s.unicode_len();
    let m = p.unicode_len();
    if m > n {
        return false;
    }
    if m == 0 {
        assert(s@.subrange(0int, 0int + p@.len()) =~= p@);
        return true;
    }
    let mut i: usize = 0;
    while i <= n - m
        invariant
            n == s@.len(),
            m == p@.len(),
            1 <= m <= n,
            i <= n - m + 1,
            forall|k: int| 0 <= k < i ==> #[trigger] s@.subrange(k, k + m) != p@,
        decreases n - m + 1 - i,
    {
        let rest = s.substring_char(i, n);
        if starts_with(rest, p) {
            assert(rest@.subrange(0, m as int) =~= s@.subrange(i as int, i + m));
            return true;
        }
        assert(rest@.subrange(0, m as int) =~= s@.subrange(i as int, i + m));
        i = i + 1;
    }
    false
}

/// Relies on bp7: `EndpointID::try_from` on each URI, `PrimaryBlockBuilder`
/// and `BundleBuilder` with a creation time of now, and `Bundle::to_cbor`.
#[verifier::external_body]
fn build_bundle(src: &str, dst: &str, report_to: &str, flags: u64, lifetime_ms: u64, data: Vec<u8>) -> (r: Option<Vec<u8>>)
{
    let primary = bp7::primary::PrimaryBlockBuilder::new()
        .source(bp7::EndpointID::try_from(src).ok()?)
        .destination(bp7::EndpointID::try_from(dst).ok()?)
        .report_to(bp7::EndpointID::try_from(report_to).ok()?)
        .lifetime(std::time::Duration::from_millis(lifetime_ms))
        .bundle_control_flags(flags)
        .creation_timestamp(bp7::CreationTimestamp::now())
        .build().ok()?;
    let mut b = bp7::bundle::BundleBuilder::new().primary(primary).payload(data).build().ok()?;
    Some(b.to_cbor())
}

impl Outgoing {
    /// The control flags of the bundle for this payload.
    pub fn control_flags(&self) -> (r: u64)
        ensures
            r == control_flags_of(self),
    {
        if self.delivery_notification {
            let d = self.dst.format();
            if !str_contains(d.as_str(), "sms2") {
                return REQUEST_DELIVERY;
            }
        }
        0
    }
}

/// The one frame that the writer sends for a command: a control command as
/// it is, a payload as an encoded bundle. A bundle that cannot be built is
/// reported and its command dropped.
pub fn frame_for(cmd: WsCommand) -> (r: Result<Frame, ChatError>)
    ensures
        cmd matches WsCommand::Text(t) ==> (r matches Ok(Frame::Text(f)) && f@ == t@),
        cmd is SendData ==> (r matches Ok(Frame::Binary(_)) || r == Err::<Frame, ChatError>(
            ChatError::PayloadConstructionError,
        )),
{
    match cmd {
        WsCommand::Text(t) => Ok(Frame::Text(t)),
        WsCommand::SendData(o) => {
            let flags = o.control_flags();
            let s = o.src.format();
            let d = o.dst.format();
            let rt = o.report_to.format();
            match build_bundle(s.as_str(), d.as_str(), rt.as_str(), flags, o.lifetime_ms, o.data) {
                Some(b) => Ok(Frame::Binary(b)),
                None => Err(ChatError::PayloadConstructionError),
            }
        },
    }
}

} // verus!
