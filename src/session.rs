//! Session and subscription state, driven by the user's commands.

use vstd::prelude::*;
use vstd::string::{StrSliceExecFns, StringExecFns};
use crate::channel::{subscribe_command, unsubscribe_command};
use crate::codec::{encode, is_white_space, sms_payload, trim, trim_start, trim_start_of, trimmed, white_space};
use crate::dispatch::{Outgoing, WsCommand};
use crate::text::{has_prefix, same_text, starts_with};
use crate::endpoint::{chat_endpoint, node_identity, parse_endpoint, uri, ChatError, Endpoint, EndpointModel};

verus! {

/// Default lifetime of a chat bundle: one hour, in milliseconds.
pub const DEFAULT_LIFETIME_MS: u64 = 3600000;

/// What `humantime::parse_duration` reads from a text, in milliseconds, where
/// that fits in 64 bits.
pub uninterp spec fn duration_ms(s: Seq<char>) -> Option<u64>;

/// Whether a list of names holds a name.
pub open spec fn has(v: Seq<String>, x: Seq<char>) -> bool {
    exists|i: int| 0 <= i < v.len() && #[trigger] v[i]@ == x
}

/// The texts of a list of strings.
pub open spec fn texts(v: Seq<String>) -> Seq<Seq<char>> {
    v.map_values(|x: String| x@)
}

/// The texts that start with `w`, in their order.
pub open spec fn keep_prefixed(v: Seq<Seq<char>>, w: Seq<char>) -> Seq<Seq<char>>
    decreases v.len(),
{
    if v.len() == 0 {
        v
    } else if has_prefix(v.last(), w) {
        keep_prefixed(v.drop_last(), w).push(v.last())
    } else {
        keep_prefixed(v.drop_last(), w)
    }
}

/// No text stands twice in a list.
pub open spec fn distinct(v: Seq<String>) -> bool {
    forall|i: int, j: int| 0 <= i < j < v.len() ==> #[trigger] v[i]@ != #[trigger] v[j]@
}

/// The chat state of one session.
#[derive(Debug)]
pub struct Session {
    /// The local chat endpoint.
    pub endpoint: Endpoint,
    /// Node identities of the joined groups.
    pub groups: Vec<String>,
    /// Node identities of the known peers.
    pub peers: Vec<String>,
    /// The implicit target of plain input.
    pub query: Option<Endpoint>,
    /// Lifetime of outbound bundles, in milliseconds.
    pub lifetime_ms: u64,
}

/// Relies on `humantime::parse_duration`, read in whole milliseconds; a
/// duration too long for that is no duration.
#[verifier::external_body]
fn parse_duration_ms(s: &str) -> (r: Option<u64>)
    ensures
        r == duration_ms(s@),
{
    humantime::parse_duration(s).ok().and_then(|d| u64::try_from(d.as_millis()).ok())
}

fn add_name(v: &mut Vec<String>, x: &str)
    ensures
        forall|y: Seq<char>| has(final(v)@, y) <==> (has(old(v)@, y) || y == x@),
        distinct(old(v)@) ==> distinct(final(v)@),
{
    let n = v.len();
    let mut i: usize = 0;
    while i < n
        invariant
            n == v.len(),
            i <= n,
            forall|j: int| 0 <= j < i ==> v@[j]@ != x@,
        decreases n - i,
    {
        if same_text(v[i].as_str(), x) {
            assert(v@[i as int]@ == x@);
            assert(has(v@, x@));
            return;
        }
        i = i + 1;
    }
    let ghost before = v@;
    v.push(String::from_str(x));
    assert(distinct(before) ==> distinct(v@)) by {
        if distinct(before) {
            assert forall|a: int, b: int| 0 <= a < b < v@.len() implies #[trigger] v@[a]@ != #[trigger] v@[b]@ by {
                if b == n {
                    assert(v@[a] == before[a]);
                } else {
                    assert(v@[a] == before[a] && v@[b] == before[b]);
                }
            }
        }
    }
    assert forall|y: Seq<char>| has(v@, y) <==> (has(before, y) || y == x@) by {
        if has(before, y) {
            let k = choose|k: int| 0 <= k < before.len() && #[trigger] before[k]@ == y;
            assert(v@[k]@ == y);
        }
        if y == x@ {
            assert(v@[n as int]@ == y);
        }
        if has(v@, y) {
            let k = choose|k: int| 0 <= k < v@.len() && #[trigger] v@[k]@ == y;
            if k < n {
                assert(before[k]@ == y);
            }
        }
    }
}

fn remove_name(v: &mut Vec<String>, x: &str)
    ensures
        forall|y: Seq<char>| has(final(v)@, y) <==> (has(old(v)@, y) && y != x@),
        distinct(old(v)@) ==> distinct(final(v)@),
{
    let n = v.len();
    let mut kept: Vec<String> = Vec::new();
    let mut i: usize = 0;
    while i < n
        invariant
            n == v.len(),
            i <= n,
            forall|y: Seq<char>| has(kept@, y) <==> (has(v@.subrange(0, i as int), y) && y != x@),
            distinct(v@) ==> distinct(kept@),
        decreases n - i,
    {
        let ghost old_kept = kept@;
        let ghost pre = v@.subrange(0, i as int);
        let ghost post = v@.subrange(0, i + 1);
        assert forall|y: Seq<char>| has(post, y) <==> (has(pre, y) || y == v@[i as int]@) by {
            if has(pre, y) {
                let k = choose|k: int| 0 <= k < pre.len() && #[trigger] pre[k]@ == y;
                assert(post[k]@ == y);
            }
            if y == v@[i as int]@ {
                assert(post[i as int]@ == y);
            }
            if has(post, y) {
                let k = choose|k: int| 0 <= k < post.len() && #[trigger] post[k]@ == y;
                if k < i {
                    assert(pre[k]@ == y);
                }
            }
        }
        if !same_text(v[i].as_str(), x) {
            let c = v[i].clone();
            kept.push(c);
            assert(distinct(v@) ==> distinct(kept@)) by {
                if distinct(v@) {
                    if has(old_kept, v@[i as int]@) {
                        let k = choose|k: int| 0 <= k < pre.len() && #[trigger] pre[k]@ == v@[i as int]@;
                        assert(pre[k] == v@[k]);
                    }
                    assert forall|a: int, b: int| 0 <= a < b < kept@.len() implies #[trigger] kept@[a]@ != #[trigger] kept@[b]@ by {
                        if b == old_kept.len() {
                            assert(kept@[a] == old_kept[a]);
                            assert(has(old_kept, kept@[a]@));
                        } else {
                            assert(kept@[a] == old_kept[a] && kept@[b] == old_kept[b]);
                        }
                    }
                }
            }
            assert forall|y: Seq<char>| has(kept@, y) <==> (has(old_kept, y) || y == v@[i as int]@) by {
                if has(old_kept, y) {
                    let k = choose|k: int| 0 <= k < old_kept.len() && #[trigger] old_kept[k]@ == y;
                    assert(kept@[k]@ == y);
                }
                if y == v@[i as int]@ {
                    assert(kept@[old_kept.len() as int]@ == y);
                }
                if has(kept@, y) {
                    let k = choose|k: int| 0 <= k < kept@.len() && #[trigger] kept@[k]@ == y;
                    if k < old_kept.len() {
                        assert(old_kept[k]@ == y);
                    }
                }
            }
        }
        assert forall|y: Seq<char>| has(kept@, y) <==> (has(post, y) && y != x@) by {
            assert(has(old_kept, y) <==> (has(pre, y) && y != x@));
            assert(has(post, y) <==> (has(pre, y) || y == v@[i as int]@));
            if v@[i as int]@ == x@ {
                assert(kept@ == old_kept);
            } else {
                assert(has(kept@, y) <==> (has(old_kept, y) || y == v@[i as int]@));
            }
        }
        i = i + 1;
    }
    assert(v@.subrange(0, n as int) =~= v@);
    *v = kept;
}

/// The length of the word at the start of a text: the characters before the
/// first whitespace.
pub open spec fn word_len(t: Seq<char>) -> nat
    decreases t.len(),
{
    if t.len() == 0 || white_space(t[0]) {
        0
    } else {
        1 + word_len(t.skip(1))
    }
}

/// The first word of a line.
pub open spec fn first_word(s: Seq<char>) -> Seq<char> {
    trimmed(s).subrange(0, word_len(trimmed(s)) as int)
}

/// What follows the first word of a line, without its leading whitespace.
pub open spec fn after_first_word(s: Seq<char>) -> Seq<char> {
    trim_start_of(trimmed(s).subrange(word_len(trimmed(s)) as int, trimmed(s).len() as int))
}

proof fn lemma_word_len(t: Seq<char>, i: int)
    requires
        0 <= i <= t.len(),
        forall|j: int| 0 <= j < i ==> !white_space(#[trigger] t[j]),
        i < t.len() ==> white_space(t[i]),
    ensures
        word_len(t) == i,
    decreases i,
{
    if i > 0 {
        assert(!white_space(t[0]));
        let u = t.skip(1);
        assert forall|j: int| 0 <= j < i - 1 implies !white_space(#[trigger] u[j]) by {
            assert(u[j] == t[j + 1]);
        }
        if i - 1 < u.len() {
            assert(u[i - 1] == t[i]);
        }
        lemma_word_len(u, i - 1);
    }
}

/// Splits a line into its first word and the rest: the line is trimmed, the
/// word ends at the first whitespace, and the rest loses its leading
/// whitespace.
pub fn split_first_word(s: &str) -> (r: (&str, &str))
    ensures
        r.0@ == first_word(s@),
        r.1@ == after_first_word(s@),
{
    let t = trim(s);
    let n = t.unicode_len();
    let mut i: usize = 0;
    while i < n
        invariant
            n == t@.len(),
            t@ == trimmed(s@),
            i <= n,
            forall|j: int| 0 <= j < i ==> !white_space(#[trigger] t@[j]),
        decreases n - i,
    {
        if is_white_space(t.get_char(i)) {
            proof {
                lemma_word_len(t@, i as int);
            }
            let w = t.substring_char(0, i);
            let rest = trim_start(t.substring_char(i, n));
            return (w, rest);
        }
        i = i + 1;
    }
    proof {
        lemma_word_len(t@, n as int);
    }
    let w = t.substring_char(0, n);
    let rest = trim_start(t.substring_char(n, n));
    (w, rest)
}

/// The candidates that start with `word`, in their order.
pub fn prefixed(candidates: &Vec<String>, word: &str) -> (r: Vec<String>)
    ensures
        texts(r@) == keep_prefixed(texts(candidates@), word@),
{
    let n = candidates.len();
    let mut out: Vec<String> = Vec::new();
    let mut i: usize = 0;
    assert(texts(candidates@).subrange(0, 0) =~= Seq::<Seq<char>>::empty());
    assert(texts(out@) =~= Seq::<Seq<char>>::empty());
    while i < n
        invariant
            n == candidates@.len(),
            i <= n,
            texts(out@) == keep_prefixed(texts(candidates@).subrange(0, i as int), word@),
        decreases n - i,
    {
        let ghost all = texts(candidates@);
        assert(all.subrange(0, i + 1).drop_last() =~= all.subrange(0, i as int));
        assert(all.subrange(0, i + 1).last() == candidates@[i as int]@);
        let ghost old_out = out@;
        if starts_with(candidates[i].as_str(), word) {
            let c = candidates[i].clone();
            out.push(c);
            assert(texts(out@) =~= texts(old_out).push(candidates@[i as int]@));
        }
        i = i + 1;
    }
    assert(texts(candidates@).subrange(0, n as int) =~= texts(candidates@));
    out
}

/// Whether a first word takes a peer name as its one argument.
pub open spec fn takes_peer(w: Seq<char>) -> bool {
    w == "/query"@ || w == "/msg"@
}

/// Whether a first word takes a variable name as its one argument.
pub open spec fn takes_variable(w: Seq<char>) -> bool {
    w == "/get"@ || w == "/set"@
}

/// Completions for the word being typed, given the line before it: command
/// names for the first word, peer names for the one argument of `/query`
/// and `/msg`, variable names for the one argument of `/get` and `/set`,
/// and none elsewhere. Each list keeps the order of its candidates.
pub fn complete(
    line_before: &str,
    word: &str,
    commands: &Vec<String>,
    peers: &Vec<String>,
    variables: &Vec<String>,
) -> (r: Option<Vec<String>>)
    ensures
        first_word(line_before@).len() == 0 ==> (r matches Some(v) && texts(v@) == keep_prefixed(
            texts(commands@),
            word@,
        )),
        takes_peer(first_word(line_before@)) && after_first_word(line_before@).len() == 0 ==> (r matches Some(v)
            && texts(v@) == keep_prefixed(texts(peers@), word@)),
        takes_variable(first_word(line_before@)) && after_first_word(line_before@).len() == 0 ==> (r matches Some(
            v,
        ) && texts(v@) == keep_prefixed(texts(variables@), word@)),
        first_word(line_before@).len() != 0 && !((takes_peer(first_word(line_before@)) || takes_variable(
            first_word(line_before@),
        )) && after_first_word(line_before@).len() == 0) ==> r is None,
{
    proof {
        reveal_strlit("/query");
        reveal_strlit("/msg");
        reveal_strlit("/get");
        reveal_strlit("/set");
        assert("/msg"@[1] != "/get"@[1] && "/msg"@[1] != "/set"@[1]);
        assert("/query"@.len() != "/get"@.len() && "/query"@.len() != "/set"@.len());
    }
    let (first, rest) = split_first_word(line_before);
    if first.is_empty() {
        return Some(prefixed(commands, word));
    }
    if !rest.is_empty() {
        return None;
    }
    if same_text(first, "/query") || same_text(first, "/msg") {
        Some(prefixed(peers, word))
    } else if same_text(first, "/get") || same_text(first, "/set") {
        Some(prefixed(variables, word))
    } else {
        None
    }
}

/// A chat message to a destination, as the writer's command: the text is
/// trimmed and compressed, and a delivery report is asked for.
pub fn send_sms(src: &Endpoint, dst: &Endpoint, lifetime_ms: u64, msg: &str) -> (r: WsCommand)
    ensures
        r matches WsCommand::SendData(o) && o.src@ == src@ && o.dst@ == dst@ && o.report_to@
            == EndpointModel::DtnNone && o.delivery_notification && o.lifetime_ms == lifetime_ms
            && o.data@ == sms_payload(trimmed(msg@), true),
{
    let data = encode(msg, true);
    WsCommand::SendData(
        Outgoing {
            src: src.copied(),
            dst: dst.copied(),
            report_to: Endpoint::DtnNone,
            delivery_notification: true,
            lifetime_ms,
            data,
        },
    )
}

impl Session {
    /// Groups and peers each hold a node once.
    pub open spec fn wf(&self) -> bool {
        distinct(self.groups@) && distinct(self.peers@)
    }

    /// A fresh session of a local chat endpoint: nothing joined, no peers,
    /// no query, the default lifetime.
    pub fn new(endpoint: Endpoint) -> (r: Session)
        ensures
            r.endpoint == endpoint,
            r.groups@.len() == 0,
            r.peers@.len() == 0,
            r.query is None,
            r.lifetime_ms == DEFAULT_LIFETIME_MS,
            r.wf(),
    {
        Session { endpoint, groups: Vec::new(), peers: Vec::new(), query: None, lifetime_ms: DEFAULT_LIFETIME_MS }
    }

    /// Joins the group that `args` names: tracks its node and returns the
    /// subscription command, which is sent whatever was tracked before.
    pub fn join(&mut self, args: &str) -> (r: Result<WsCommand, ChatError>)
        ensures
            old(self).wf() ==> final(self).wf(),
            match chat_endpoint(args@) {
                None => r == Err::<WsCommand, ChatError>(ChatError::InvalidEndpoint)
                    && *final(self) == *old(self),
                Some(m) => r matches Ok(WsCommand::Text(c)) && c@ == subscribe_command(uri(m))
                    && final(self).endpoint == old(self).endpoint && final(self).query
                    == old(self).query && final(self).lifetime_ms == old(self).lifetime_ms
                    && (forall|y: Seq<char>| has(final(self).groups@, y) <==> (has(old(self).groups@, y)
                    || Some(y) == node_identity(m))) && (forall|y: Seq<char>|
                    has(final(self).peers@, y) <==> (has(old(self).peers@, y) || Some(y)
                    == node_identity(m))),
            },
    {
        let dst = match parse_endpoint(args) {
            Ok(e) => e,
            Err(e) => return Err(e),
        };
        match dst.node_identity() {
            Some(n) => {
                add_name(&mut self.peers, n.as_str());
                add_name(&mut self.groups, n.as_str());
            },
            None => {},
        }
        let u = dst.format();
        Ok(WsCommand::Text(String::from_str("/subscribe ").concat(u.as_str())))
    }

    /// Leaves the group that `args` names and returns the unsubscription
    /// command, whatever was tracked before; leaving the local node itself
    /// does nothing.
    pub fn leave(&mut self, args: &str) -> (r: Result<Option<WsCommand>, ChatError>)
        ensures
            old(self).wf() ==> final(self).wf(),
            node_identity(old(self).endpoint@) == Some(args@) ==> r == Ok::<
                Option<WsCommand>,
                ChatError,
            >(None) && *final(self) == *old(self),
            node_identity(old(self).endpoint@) != Some(args@) ==> match chat_endpoint(args@) {
                None => r == Err::<Option<WsCommand>, ChatError>(ChatError::InvalidEndpoint)
                    && *final(self) == *old(self),
                Some(m) => r matches Ok(Some(WsCommand::Text(c))) && c@ == unsubscribe_command(uri(m))
                    && final(self).endpoint == old(self).endpoint && final(self).query
                    == old(self).query && final(self).lifetime_ms == old(self).lifetime_ms
                    && (forall|y: Seq<char>| has(final(self).groups@, y) <==> (has(old(self).groups@, y)
                    && Some(y) != node_identity(m))) && (forall|y: Seq<char>|
                    has(final(self).peers@, y) <==> (has(old(self).peers@, y) && Some(y)
                    != node_identity(m))),
            },
    {
        match self.endpoint.node_identity() {
            Some(own) => {
                if same_text(own.as_str(), args) {
                    return Ok(None);
                }
            },
            None => {},
        }
        let dst = match parse_endpoint(args) {
            Ok(e) => e,
            Err(e) => return Err(e),
        };
        match dst.node_identity() {
            Some(n) => {
                remove_name(&mut self.peers, n.as_str());
                remove_name(&mut self.groups, n.as_str());
            },
            None => {},
        }
        let u = dst.format();
        Ok(Some(WsCommand::Text(String::from_str("/unsubscribe ").concat(u.as_str()))))
    }

    /// Sets the implicit target of plain input to the node that `target`
    /// names, tracking it as a peer, or clears it when `target` is empty.
    /// Nothing is sent.
    pub fn set_query(&mut self, target: &str) -> (r: Result<(), ChatError>)
        ensures
            old(self).wf() ==> final(self).wf(),
            final(self).endpoint == old(self).endpoint,
            final(self).groups == old(self).groups,
            final(self).lifetime_ms == old(self).lifetime_ms,
            target@.len() == 0 ==> r is Ok && final(self).query is None && final(self).peers
                == old(self).peers,
            target@.len() != 0 ==> match chat_endpoint(target@) {
                None => r == Err::<(), ChatError>(ChatError::InvalidEndpoint) && *final(self) == *old(self),
                Some(m) => r is Ok && (final(self).query matches Some(q) && q@ == m) && (forall|
                    y: Seq<char>,
                | has(final(self).peers@, y) <==> (has(old(self).peers@, y) || Some(y)
                    == node_identity(m))),
            },
    {
        if target.is_empty() {
            self.query = None;
            return Ok(());
        }
        let dst = match parse_endpoint(target) {
            Ok(e) => e,
            Err(e) => return Err(e),
        };
        match dst.node_identity() {
            Some(n) => add_name(&mut self.peers, n.as_str()),
            None => {},
        }
        self.query = Some(dst);
        Ok(())
    }

    /// A chat message to the node that `target` names, tracked as a peer.
    pub fn message(&mut self, target: &str, msg: &str) -> (r: Result<WsCommand, ChatError>)
        ensures
            old(self).wf() ==> final(self).wf(),
            final(self).endpoint == old(self).endpoint,
            final(self).groups == old(self).groups,
            final(self).query == old(self).query,
            final(self).lifetime_ms == old(self).lifetime_ms,
            match chat_endpoint(target@) {
                None => r == Err::<WsCommand, ChatError>(ChatError::InvalidEndpoint) && *final(self) == *old(self),
                Some(m) => (forall|y: Seq<char>| has(final(self).peers@, y) <==> (has(old(self).peers@, y)
                    || Some(y) == node_identity(m))) && (r matches Ok(WsCommand::SendData(o))
                    && o.src@ == old(self).endpoint@ && o.dst@ == m && o.report_to@ == EndpointModel::DtnNone
                    && o.delivery_notification && o.lifetime_ms == old(self).lifetime_ms
                    && o.data@ == sms_payload(trimmed(msg@), true)),
            },
    {
        let dst = match parse_endpoint(target) {
            Ok(e) => e,
            Err(e) => return Err(e),
        };
        match dst.node_identity() {
            Some(n) => add_name(&mut self.peers, n.as_str()),
            None => {},
        }
        Ok(send_sms(&self.endpoint, &dst, self.lifetime_ms, msg))
    }

    /// Sets the lifetime of outbound bundles from a duration such as `2h`.
    /// A text of at most one character only asks for the current value.
    pub fn set_lifetime(&mut self, args: &str) -> (r: Result<(), ChatError>)
        ensures
            final(self).endpoint == old(self).endpoint,
            final(self).groups == old(self).groups,
            final(self).peers == old(self).peers,
            final(self).query == old(self).query,
            args@.len() <= 1 ==> r is Ok && final(self).lifetime_ms == old(self).lifetime_ms,
            args@.len() > 1 ==> match duration_ms(args@) {
                Some(ms) => r is Ok && final(self).lifetime_ms == ms,
                None => r == Err::<(), ChatError>(ChatError::InvalidDuration) && final(self).lifetime_ms
                    == old(self).lifetime_ms,
            },
    {
        if args.unicode_len() <= 1 {
            return Ok(());
        }
        match parse_duration_ms(args) {
            Some(ms) => {
                self.lifetime_ms = ms;
                Ok(())
            },
            None => Err(ChatError::InvalidDuration),
        }
    }
}

} // verus!
