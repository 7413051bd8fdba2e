//! The inbound bundle router: reads a bundle, classifies it and decides
//! whether it is shown, answered or dropped; and the auto-responder's reply.

use vstd::prelude::*;
use crate::codec::{encode, sms_payload, trimmed, ChatMessage};
use crate::dispatch::Outgoing;
use crate::endpoint::{parse_uri, uri_endpoint, ChatError, Endpoint, EndpointModel};

verus! {

/// What bp7 reads from bundle bytes: whether it is an administrative
/// record, the URIs of source and destination, the lifetime in milliseconds
/// and the creation time in milliseconds since 2000.
pub uninterp spec fn bundle_fields(raw: Seq<u8>) -> Option<(bool, Seq<char>, Seq<char>, u64, u64)>;

/// What dtn7-plus reads from bundle bytes that follow the chat convention:
/// the compression flag and the text.
pub uninterp spec fn sms_of(raw: Seq<u8>) -> Option<(bool, Seq<char>)>;

/// Milliseconds from the Unix epoch to the DTN epoch (2000-01-01).
pub const MS_1970_TO_2000: u64 = 946684800000;

/// The mathematical value of a received bundle.
pub struct InboundModel {
    pub administrative: bool,
    pub source: EndpointModel,
    pub destination: EndpointModel,
    pub lifetime_ms: u64,
    pub created_unix: u64,
    pub message: Option<(bool, Seq<char>)>,
}

/// The fields of a received bundle that the router reads.
#[derive(Debug)]
pub struct InboundBundle {
    pub administrative: bool,
    pub source: Endpoint,
    pub destination: Endpoint,
    /// Lifetime in milliseconds.
    pub lifetime_ms: u64,
    /// Creation time in Unix seconds.
    pub created_unix: u64,
    /// The chat payload, where the bundle follows the chat convention.
    pub message: Option<ChatMessage>,
}

impl View for InboundBundle {
    type V = InboundModel;

    open spec fn view(&self) -> InboundModel {
        InboundModel {
            administrative: self.administrative,
            source: self.source@,
            destination: self.destination@,
            lifetime_ms: self.lifetime_ms,
            created_unix: self.created_unix,
            message: match self.message {
                Some(m) => Some((m.compressed, m.text@)),
                None => None,
            },
        }
    }
}

/// A message to hand on.
#[derive(Debug)]
pub struct Delivery {
    pub source: Endpoint,
    pub destination: Endpoint,
    pub lifetime_ms: u64,
    pub created_unix: u64,
    pub compressed: bool,
    pub text: String,
    /// Whether the user sees it.
    pub display: bool,
    /// Whether the auto-responder answers it.
    pub respond: bool,
}

/// What becomes of one inbound frame.
#[derive(Debug)]
pub enum RouteAction {
    /// An administrative record or an anonymous message: dropped.
    Ignore,
    /// Bytes that hold no bundle: logged and dropped.
    Malformed,
    /// A bundle that carries no chat message: logged and dropped.
    Unexpected,
    Deliver(Delivery),
}

/// The bundle that bytes hold, where bp7 reads one whose endpoints are URIs
/// of the three forms; the creation time is turned into Unix seconds.
pub open spec fn inbound_of(raw: Seq<u8>) -> Option<InboundModel> {
    match bundle_fields(raw) {
        None => None,
        Some(f) => match (uri_endpoint(f.1), uri_endpoint(f.2)) {
            (Some(src), Some(dst)) => Some(
                InboundModel {
                    administrative: f.0,
                    source: src,
                    destination: dst,
                    lifetime_ms: f.3,
                    created_unix: (f.4 / 1000 + MS_1970_TO_2000 / 1000) as u64,
                    message: sms_of(raw),
                },
            ),
            _ => None,
        },
    }
}

/// Relies on bp7's `TryFrom<&[u8]> for Bundle` (CBOR decoding), then on
/// `Bundle::is_administrative_record`, the `Display` of the primary block's
/// source and destination, its lifetime, and `CreationTimestamp::dtntime`.
#[verifier::external_body]
fn read_bundle_fields(raw: &[u8]) -> (r: Option<(bool, String, String, u64, u64)>)
    ensures
        r is Some == bundle_fields(raw@) is Some,
        r matches Some(g) ==> (g.0, g.1@, g.2@, g.3, g.4) == bundle_fields(raw@).unwrap(),
{
    let b = bp7::Bundle::try_from(raw).ok()?;
    let p = &b.primary;
    let lifetime_ms = p.lifetime.as_millis() as u64;
    Some((b.is_administrative_record(), p.source.to_string(), p.destination.to_string(), lifetime_ms, p.creation_timestamp.dtntime()))
}

/// Relies on bp7's `TryFrom<&[u8]> for Bundle`, then on
/// `dtn7_plus::sms::SMSBundle::try_from`, which checks the chat convention,
/// and its `compression` and `msg`.
#[verifier::external_body]
fn chat_message_of(raw: &[u8]) -> (r: Option<ChatMessage>)
    ensures
        r is Some == sms_of(raw@) is Some,
        r matches Some(m) ==> (m.compressed, m.text@) == sms_of(raw@).unwrap(),
{
    let b = bp7::Bundle::try_from(raw).ok()?;
    let s = dtn7_plus::sms::SMSBundle::try_from(b).ok()?;
    Some(ChatMessage { compressed: s.compression(), text: s.msg() })
}

/// Reads the fields of a received bundle.
pub fn decode_bundle(raw: &[u8]) -> (r: Result<InboundBundle, ChatError>)
    ensures
        match inbound_of(raw@) {
            None => r == Err::<InboundBundle, ChatError>(ChatError::MalformedBundle),
            Some(m) => r matches Ok(b) && b@ == m,
        },
{
    match read_bundle_fields(raw) {
        None => Err(ChatError::MalformedBundle),
        Some((administrative, src, dst, lifetime_ms, dtn_ms)) => {
            match (parse_uri(src.as_str()), parse_uri(dst.as_str())) {
                (Some(source), Some(destination)) => {
                    let created_unix = dtn_ms / 1000 + MS_1970_TO_2000 / 1000;
                    Ok(InboundBundle {
                        administrative,
                        source,
                        destination,
                        lifetime_ms,
                        created_unix,
                        message: chat_message_of(raw),
                    })
                },
                _ => Err(ChatError::MalformedBundle),
            }
        },
    }
}

/// What `route` gives for a bundle.
pub open spec fn route_result(b: InboundModel, local: EndpointModel, verbose: bool, r: RouteAction) -> bool {
    if b.administrative || b.source == EndpointModel::DtnNone {
        r is Ignore
    } else {
        match b.message {
            None => r is Unexpected,
            Some(m) => r matches RouteAction::Deliver(d) && d.source@ == b.source
                && d.destination@ == b.destination && d.lifetime_ms == b.lifetime_ms
                && d.created_unix == b.created_unix && d.compressed == m.0 && d.text@ == m.1
                && d.display == (verbose || b.source != local) && d.respond == (b.source != local),
        }
    }
}

/// Classifies a bundle. A message from the local endpoint is shown only in
/// verbose mode and is never answered.
pub fn route(b: InboundBundle, local: &Endpoint, verbose: bool) -> (r: RouteAction)
    ensures
        route_result(b@, local@, verbose, r),
{
    if b.administrative {
        return RouteAction::Ignore;
    }
    if let Endpoint::DtnNone = b.source {
        return RouteAction::Ignore;
    }
    let from_self = b.source.same_as(local);
    match b.message {
        None => RouteAction::Unexpected,
        Some(m) => RouteAction::Deliver(
            Delivery {
                source: b.source,
                destination: b.destination,
                lifetime_ms: b.lifetime_ms,
                created_unix: b.created_unix,
                compressed: m.compressed,
                text: m.text,
                display: verbose || !from_self,
                respond: !from_self,
            },
        ),
    }
}

/// The auto-responder's answer to a delivered message: from the message's
/// destination back to its source, with no report address, the same
/// lifetime and compression, and no delivery report asked for.
pub fn reply(d: &Delivery, response: &str) -> (r: Outgoing)
    ensures
        r.src@ == d.destination@,
        r.dst@ == d.source@,
        r.report_to@ == EndpointModel::DtnNone,
        r.lifetime_ms == d.lifetime_ms,
        !r.delivery_notification,
        r.data@ == sms_payload(trimmed(response@), d.compressed),
{
    let data = encode(response, d.compressed);
    Outgoing {
        src: d.destination.copied(),
        dst: d.source.copied(),
        report_to: Endpoint::DtnNone,
        delivery_notification: false,
        lifetime_ms: d.lifetime_ms,
        data,
    }
}

} // verus!
