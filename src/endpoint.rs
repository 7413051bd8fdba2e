//! Endpoint addressing: the two naming schemes of bundle endpoints, the
//! chat service on each, and the node identity used to group peers.

use vstd::prelude::*;
use vstd::string::StringExecFns;
use vstd::string::StrSliceExecFns;
use crate::text::{
    all_digits, decimal, find_char, index_of, is_digit, has_prefix, lemma_decimal_digits, lemma_decimal_u64_literal,
    lemma_find_char, parse_u64, same_text, starts_with, u64_literal, u64_to_decimal,
};

verus! {

/// Service number of the chat service in the numeric scheme.
pub const CHAT_SERVICE_NUMBER: u64 = 767;

/// A bundle endpoint.
#[derive(Clone, Debug)]
pub enum Endpoint {
    /// Hierarchical scheme: `dtn://<node>/<service>`.
    Dtn { node: String, service: String },
    /// Numeric scheme: `ipn:<node>.<service>`.
    Ipn { node: u64, service: u64 },
    /// `dtn:none`, the endpoint that asks for no reply.
    DtnNone,
}

/// The mathematical value of an endpoint.
pub enum EndpointModel {
    Dtn { node: Seq<char>, service: Seq<char> },
    Ipn { node: u64, service: u64 },
    DtnNone,
}

impl View for Endpoint {
    type V = EndpointModel;

    open spec fn view(&self) -> EndpointModel {
        match self {
            Endpoint::Dtn { node, service } => EndpointModel::Dtn { node: node@, service: service@ },
            Endpoint::Ipn { node, service } => EndpointModel::Ipn { node: *node, service: *service },
            Endpoint::DtnNone => EndpointModel::DtnNone,
        }
    }
}

/// Errors of the library.
#[derive(Clone, Copy, Debug, PartialEq, Eq, Structural)]
pub enum ChatError {
    /// A string that names no endpoint.
    InvalidEndpoint,
    /// A lifetime that names no duration.
    InvalidDuration,
    /// Inbound bytes that hold no bundle.
    MalformedBundle,
    /// A bundle whose payload is no chat message.
    UnexpectedPayload,
    /// An outbound bundle that could not be built.
    PayloadConstructionError,
}

/// A bare node name of the hierarchical scheme: not empty, and no `/`.
pub open spec fn is_node_name(s: Seq<char>) -> bool {
    s.len() > 0 && forall|i: int| 0 <= i < s.len() ==> #[trigger] s[i] != '/'
}

/// The endpoint that a URI names, in the forms `dtn:none`,
/// `dtn://<node>/<service>` (the node ends at the first `/`) and
/// `ipn:<node>.<service>`.
pub open spec fn uri_endpoint(s: Seq<char>) -> Option<EndpointModel> {
    if s == "dtn:none"@ {
        Some(EndpointModel::DtnNone)
    } else if has_prefix(s, "dtn://"@) {
        let rest = s.subrange("dtn://"@.len() as int, s.len() as int);
        let i = find_char(rest, '/') as int;
        Some(
            EndpointModel::Dtn {
                node: rest.subrange(0, i),
                service: if i < rest.len() {
                    rest.subrange(i + 1, rest.len() as int)
                } else {
                    Seq::<char>::empty()
                },
            },
        )
    } else if has_prefix(s, "ipn:"@) {
        let rest = s.subrange("ipn:"@.len() as int, s.len() as int);
        let i = find_char(rest, '.') as int;
        if i < rest.len() {
            match (u64_literal(rest.subrange(0, i)), u64_literal(rest.subrange(i + 1, rest.len() as int))) {
                (Some(a), Some(b)) => Some(EndpointModel::Ipn { node: a, service: b }),
                _ => None,
            }
        } else {
            None
        }
    } else {
        None
    }
}

/// An endpoint of the chat service: a node name with service `sms`, or a
/// node number from 1 with service 767.
pub open spec fn is_chat(m: EndpointModel) -> bool {
    match m {
        EndpointModel::Dtn { node, service } => is_node_name(node) && service == "sms"@,
        EndpointModel::Ipn { node, service } => node >= 1 && service == CHAT_SERVICE_NUMBER,
        EndpointModel::DtnNone => false,
    }
}

/// The chat endpoint that user input names: a URI of a chat endpoint; else a
/// number, a node of the numeric scheme (node 0 does not exist); else a node
/// name of the hierarchical scheme.
pub open spec fn chat_endpoint(s: Seq<char>) -> Option<EndpointModel> {
    match uri_endpoint(s) {
        Some(m) => if is_chat(m) {
            Some(m)
        } else {
            None
        },
        None => match u64_literal(s) {
            Some(n) => if n >= 1 {
                Some(EndpointModel::Ipn { node: n, service: CHAT_SERVICE_NUMBER })
            } else {
                None
            },
            None => if is_node_name(s) {
                Some(EndpointModel::Dtn { node: s, service: "sms"@ })
            } else {
                None
            },
        },
    }
}

/// The URI of an endpoint.
pub open spec fn uri(e: EndpointModel) -> Seq<char> {
    match e {
        EndpointModel::Dtn { node, service } => "dtn://"@ + node + "/"@ + service,
        EndpointModel::Ipn { node, service } => "ipn:"@ + decimal(node as nat) + "."@ + decimal(
            service as nat,
        ),
        EndpointModel::DtnNone => "dtn:none"@,
    }
}

/// The node an endpoint belongs to, without scheme or service.
pub open spec fn node_identity(e: EndpointModel) -> Option<Seq<char>> {
    match e {
        EndpointModel::Dtn { node, .. } => Some(node),
        EndpointModel::Ipn { node, .. } => Some(decimal(node as nat)),
        EndpointModel::DtnNone => None,
    }
}

fn is_bare_node_name(s: &str) -> (r: bool)
    ensures
        r == is_node_name(s@),
{
    let n = s.unicode_len();
    if n == 0 {
        return false;
    }
    let mut i: usize = 0;
    while i < n
        invariant
            n == s@.len(),
            i <= n,
            forall|j: int| 0 <= j < i ==> #[trigger] s@[j] != '/',
        decreases n - i,
    {
        if s.get_char(i) == '/' {
            return false;
        }
        i = i + 1;
    }
    true
}

/// Reads the endpoint that a URI names (see `uri_endpoint`).
pub fn parse_uri(s: &str) -> (r: Option<Endpoint>)
    ensures
        match uri_endpoint(s@) {
            Some(m) => r matches Some(e) && e@ == m,
            None => r is None,
        },
{
    if same_text(s, "dtn:none") {
        return Some(Endpoint::DtnNone);
    }
    let n = s.unicode_len();
    if starts_with(s, "dtn://") {
        let rest = s.substring_char("dtn://".unicode_len(), n);
        let m = rest.unicode_len();
        let i = index_of(rest, '/');
        let node = rest.substring_char(0, i);
        let service = if i < m {
            rest.substring_char(i + 1, m)
        } else {
            let e = rest.substring_char(m, m);
            assert(e@ =~= Seq::<char>::empty());
            e
        };
        return Some(Endpoint::Dtn { node: String::from_str(node), service: String::from_str(service) });
    }
    if starts_with(s, "ipn:") {
        let rest = s.substring_char("ipn:".unicode_len(), n);
        let m = rest.unicode_len();
        let i = index_of(rest, '.');
        if i >= m {
            return None;
        }
        let a = parse_u64(rest.substring_char(0, i));
        let b = parse_u64(rest.substring_char(i + 1, m));
        return match (a, b) {
            (Some(a), Some(b)) => Some(Endpoint::Ipn { node: a, service: b }),
            _ => None,
        };
    }
    None
}

/// Reads the chat endpoint that user input names (see `chat_endpoint`).
pub fn parse_endpoint(input: &str) -> (r: Result<Endpoint, ChatError>)
    ensures
        match chat_endpoint(input@) {
            Some(m) => r matches Ok(e) && e@ == m,
            None => r == Err::<Endpoint, ChatError>(ChatError::InvalidEndpoint),
        },
{
    if let Some(e) = parse_uri(input) {
        return if e.is_chat() {
            Ok(e)
        } else {
            Err(ChatError::InvalidEndpoint)
        };
    }
    match parse_u64(input) {
        Some(n) => {
            if n >= 1 {
                Ok(Endpoint::Ipn { node: n, service: CHAT_SERVICE_NUMBER })
            } else {
                Err(ChatError::InvalidEndpoint)
            }
        },
        None => {
            if is_bare_node_name(input) {
                Ok(Endpoint::Dtn { node: String::from_str(input), service: String::from_str("sms") })
            } else {
                Err(ChatError::InvalidEndpoint)
            }
        },
    }
}

impl Endpoint {
    /// Whether this is an endpoint of the chat service (see `is_chat`).
    pub fn is_chat(&self) -> (r: bool)
        ensures
            r == is_chat(self@),
    {
        match self {
            Endpoint::Dtn { node, service } => is_bare_node_name(node.as_str()) && same_text(service.as_str(), "sms"),
            Endpoint::Ipn { node, service } => *node >= 1 && *service == CHAT_SERVICE_NUMBER,
            Endpoint::DtnNone => false,
        }
    }

    /// The endpoint's URI, as the daemon's commands take it.
    pub fn format(&self) -> (r: String)
        ensures
            r@ == uri(self@),
    {
        match self {
            Endpoint::Dtn { node, service } => {
                let s = String::from_str("dtn://").concat(node.as_str());
                s.concat("/").concat(service.as_str())
            },
            Endpoint::Ipn { node, service } => {
                let n = u64_to_decimal(*node);
                let v = u64_to_decimal(*service);
                String::from_str("ipn:").concat(n.as_str()).concat(".").concat(v.as_str())
            },
            Endpoint::DtnNone => String::from_str("dtn:none"),
        }
    }

    /// The node this endpoint belongs to; none for `dtn:none`.
    pub fn node_identity(&self) -> (r: Option<String>)
        ensures
            match node_identity(self@) {
                Some(n) => r matches Some(s) && s@ == n,
                None => r is None,
            },
    {
        match self {
            Endpoint::Dtn { node, .. } => Some(node.clone()),
            Endpoint::Ipn { node, .. } => Some(u64_to_decimal(*node)),
            Endpoint::DtnNone => None,
        }
    }

    /// A copy of this endpoint.
    pub fn copied(&self) -> (r: Endpoint)
        ensures
            r@ == self@,
    {
        match self {
            Endpoint::Dtn { node, service } => Endpoint::Dtn { node: node.clone(), service: service.clone() },
            Endpoint::Ipn { node, service } => Endpoint::Ipn { node: *node, service: *service },
            Endpoint::DtnNone => Endpoint::DtnNone,
        }
    }

    /// Whether two endpoints are the same.
    pub fn same_as(&self, other: &Endpoint) -> (r: bool)
        ensures
            r == (self@ == other@),
    {
        match (self, other) {
            (Endpoint::Dtn { node: a, service: b }, Endpoint::Dtn { node: c, service: d }) => {
                let x: bool = a.eq(c);
                let y: bool = b.eq(d);
                x && y
            },
            (Endpoint::Ipn { node: a, service: b }, Endpoint::Ipn { node: c, service: d }) => {
                *a == *c && *b == *d
            },
            (Endpoint::DtnNone, Endpoint::DtnNone) => true,
            _ => false,
        }
    }
}

/// Every endpoint whose hierarchical node name holds no `/` reads back from
/// its URI.
pub proof fn lemma_uri_round_trip(m: EndpointModel)
    requires
        m matches EndpointModel::Dtn { node, .. } ==> forall|j: int| 0 <= j < node.len() ==> #[trigger] node[j] != '/',
    ensures
        uri_endpoint(uri(m)) == Some(m),
{
    reveal_strlit("dtn:none");
    reveal_strlit("dtn://");
    reveal_strlit("ipn:");
    reveal_strlit("/");
    reveal_strlit(".");
    let s = uri(m);
    match m {
        EndpointModel::Dtn { node, service } => {
            assert(s[4] == '/');
            assert(s != "dtn:none"@);
            assert(s.subrange(0, 6) =~= "dtn://"@);
            let rest = s.subrange(6, s.len() as int);
            assert(rest =~= node + "/"@ + service);
            assert(rest[node.len() as int] == '/');
            assert forall|j: int| 0 <= j < node.len() implies #[trigger] rest[j] != '/' by {
                assert(rest[j] == node[j]);
            }
            lemma_find_char(rest, '/', node.len() as int);
            assert(rest.subrange(0, node.len() as int) =~= node);
            assert(rest.subrange(node.len() as int + 1, rest.len() as int) =~= service);
        },
        EndpointModel::Ipn { node, service } => {
            let a = decimal(node as nat);
            let b = decimal(service as nat);
            assert(s[0] == 'i');
            assert(s != "dtn:none"@);
            if has_prefix(s, "dtn://"@) {
                assert(s.subrange(0, 6)[0] == s[0]);
            }
            assert(s.subrange(0, 4) =~= "ipn:"@);
            let rest = s.subrange(4, s.len() as int);
            assert(rest =~= a + "."@ + b);
            lemma_decimal_digits(node as nat);
            assert(rest[a.len() as int] == '.');
            assert forall|j: int| 0 <= j < a.len() implies #[trigger] rest[j] != '.' by {
                assert(rest[j] == a[j]);
                assert(is_digit(a[j]));
            }
            lemma_find_char(rest, '.', a.len() as int);
            assert(rest.subrange(0, a.len() as int) =~= a);
            assert(rest.subrange(a.len() as int + 1, rest.len() as int) =~= b);
            lemma_decimal_u64_literal(node);
            lemma_decimal_u64_literal(service);
        },
        EndpointModel::DtnNone => {},
    }
}

/// What `format` writes of an endpoint that `parse_endpoint` read, it reads
/// back as the same endpoint.
pub proof fn lemma_format_parse_round_trip(s: Seq<char>)
    requires
        chat_endpoint(s) is Some,
    ensures
        chat_endpoint(uri(chat_endpoint(s).unwrap())) == chat_endpoint(s),
{
    let m = chat_endpoint(s).unwrap();
    assert(is_chat(m));
    lemma_uri_round_trip(m);
}

} // verus!
