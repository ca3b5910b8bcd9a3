//! The decisions of the forwarding pipeline: where a request goes, and what is
//! recorded and answered once the upstream exchange has ended.

use vstd::prelude::*;
use vstd::string::*;
use vstd::utf8::*;
use crate::body::HeaderPair;
use crate::config::{updated, ConfigUpdate, ProxyConfig};
use crate::recorder::{
    error_attached, keep_last, response_attached, HttpVersion, RequestRecorder, ResponseInfo,
};

verus! {

/// The response that came back from upstream, its body fully read.
pub struct UpstreamResponse {
    pub status: u16,
    pub version: HttpVersion,
    pub headers: Vec<HeaderPair>,
    pub body: Vec<u8>,
}

/// How an upstream exchange ended.
pub enum UpstreamOutcome {
    /// A response arrived within the deadline and its body was read.
    Responded(UpstreamResponse),
    /// A response arrived, but reading its body failed with this message.
    BodyFailed(String),
    /// The exchange failed (connection, protocol, TLS) with this message.
    Failed(String),
    /// The deadline passed first.
    TimedOut,
}

/// The response written back to the client.
pub struct ClientReply {
    pub status: u16,
    pub version: HttpVersion,
    pub headers: Vec<HeaderPair>,
    pub body: Vec<u8>,
}

/// The text of each header: name and value bytes.
pub open spec fn header_pairs_view(h: Seq<HeaderPair>) -> Seq<(Seq<char>, Seq<u8>)> {
    h.map_values(|p: HeaderPair| (p.0@, p.1@))
}

/// `r` is a reply of status `status`, HTTP/1.1, no headers, with body `text`.
pub open spec fn plain_reply(r: ClientReply, status: u16, text: Seq<char>) -> bool {
    &&& r.status == status
    &&& r.version == HttpVersion::Http11
    &&& r.headers@.len() == 0
    &&& r.body@ == encode_utf8(text)
}

/// `r` copies the upstream response `u`: status, version, headers in order, body.
pub open spec fn copies_response(r: ClientReply, u: UpstreamResponse) -> bool {
    &&& r.status == u.status
    &&& r.version == u.version
    &&& header_pairs_view(r.headers@) == header_pairs_view(u.headers@)
    &&& r.body@ == u.body@
}

fn plain(status: u16, text: &str) -> (r: ClientReply)
    ensures
        plain_reply(r, status, text@),
{
    ClientReply {
        status,
        version: HttpVersion::Http11,
        headers: Vec::new(),
        body: text.as_bytes_vec(),
    }
}

impl ClientReply {
    /// The answer to a request whose body could not be read.
    pub fn bad_request() -> (r: ClientReply)
        ensures
            plain_reply(r, 400, "Bad Request"@),
    {
        plain(400, "Bad Request")
    }
}

fn copy_headers(h: &Vec<HeaderPair>) -> (r: Vec<HeaderPair>)
    ensures
        header_pairs_view(r@) == header_pairs_view(h@),
{
    let mut r: Vec<HeaderPair> = Vec::new();
    let mut i: usize = 0;
    while i < h.len()
        invariant
            i <= h@.len(),
            header_pairs_view(r@) == header_pairs_view(h@.subrange(0, i as int)),
        decreases h@.len() - i,
    {
        let value = h[i].1.clone();
        assert(value@ =~= h@[i as int].1@);
        let ghost prev = r@;
        let name = h[i].0.clone();
        r.push((name, value));
        assert(h@.subrange(0, i + 1) =~= h@.subrange(0, i as int).push(h@[i as int]));
        assert(header_pairs_view(r@) =~= header_pairs_view(prev).push((h@[i as int].0@, h@[i as int].1@)));
        assert(header_pairs_view(r@) =~= header_pairs_view(h@.subrange(0, i + 1)));
        i += 1;
    }
    assert(h@.subrange(0, h@.len() as int) =~= h@);
    r
}

/// The upstream URI of a request: `http://`, the upstream address, then the
/// request's path and query.
pub fn upstream_uri(upstream_address: &str, path_and_query: &str) -> (r: String)
    ensures
        r@ == "http://"@ + upstream_address@ + path_and_query@,
{
    let mut r = String::from_str("http://");
    r.append(upstream_address);
    r.append(path_and_query);
    r
}

fn prefixed(prefix: &str, message: &str) -> (r: String)
    ensures
        r@ == prefix@ + message@,
{
    let mut r = String::from_str(prefix);
    r.append(message);
    r
}

/// Records how the upstream exchange of request `id` ended, and says what to answer:
/// the upstream response copied verbatim; 502 where the exchange or the body read
/// failed; 503 where the deadline passed.
pub fn finish_exchange(
    recorder: &mut RequestRecorder,
    id: String,
    outcome: UpstreamOutcome,
    duration_ms: u64,
    truncate_at: usize,
) -> (r: ClientReply)
    requires
        old(recorder).wf(),
    ensures
        final(recorder).wf(),
        final(recorder).capacity() == old(recorder).capacity(),
        match outcome {
            UpstreamOutcome::Responded(u) => {
                &&& response_attached(
                    old(recorder)@,
                    final(recorder)@,
                    (ResponseInfo {
                        request_id: id,
                        status: u.status,
                        version: u.version,
                        headers: u.headers,
                        body: u.body,
                        duration_ms,
                        truncate_at,
                    }),
                )
                &&& copies_response(r, u)
            },
            UpstreamOutcome::BodyFailed(m) => {
                &&& error_attached(old(recorder)@, final(recorder)@, id@, "Error reading response: "@ + m@)
                &&& plain_reply(r, 502, "Bad Gateway"@)
            },
            UpstreamOutcome::Failed(m) => {
                &&& error_attached(old(recorder)@, final(recorder)@, id@, "Upstream error: "@ + m@)
                &&& plain_reply(r, 502, "Bad Gateway"@)
            },
            UpstreamOutcome::TimedOut => {
                &&& error_attached(old(recorder)@, final(recorder)@, id@, "Upstream timeout"@)
                &&& plain_reply(r, 503, "Service Unavailable - Upstream Timeout"@)
            },
        },
{
    match outcome {
        UpstreamOutcome::Responded(u) => {
            let reply = ClientReply {
                status: u.status,
                version: u.version,
                headers: copy_headers(&u.headers),
                body: u.body.clone(),
            };
            assert(reply.body@ =~= u.body@);
            let info = ResponseInfo {
                request_id: id,
                status: u.status,
                version: u.version,
                headers: u.headers,
                body: u.body,
                duration_ms,
                truncate_at,
            };
            recorder.record_response(info);
            reply
        },
        UpstreamOutcome::BodyFailed(m) => {
            recorder.record_error(id.as_str(), prefixed("Error reading response: ", m.as_str()));
            plain(502, "Bad Gateway")
        },
        UpstreamOutcome::Failed(m) => {
            recorder.record_error(id.as_str(), prefixed("Upstream error: ", m.as_str()));
            plain(502, "Bad Gateway")
        },
        UpstreamOutcome::TimedOut => {
            recorder.record_error(id.as_str(), String::from_str("Upstream timeout"));
            plain(503, "Service Unavailable - Upstream Timeout")
        },
    }
}

/// Applies a configuration update; where it sets the history size, the recorder
/// is resized to it at once.
pub fn apply_config_update(config: &mut ProxyConfig, recorder: &mut RequestRecorder, update: &ConfigUpdate)
    requires
        old(recorder).wf(),
    ensures
        updated(*old(config), *update, *final(config)),
        final(recorder).wf(),
        match update.max_history_size {
            Some(n) => final(recorder)@ == keep_last(old(recorder)@, n as nat) && final(recorder).capacity() == n,
            None => final(recorder)@ == old(recorder)@ && final(recorder).capacity() == old(recorder).capacity(),
        },
{
    update.apply_to(config);
    if let Some(n) = update.max_history_size {
        recorder.resize(n);
    }
}

/// A proxied request whose upstream response arrives in time is answered with that
/// response unchanged: status, version, headers (in order) and body.
pub proof fn lemma_reply_is_upstream_response(r: ClientReply, u: UpstreamResponse)
    requires
        copies_response(r, u),
    ensures
        r.status == u.status,
        r.version == u.version,
        header_pairs_view(r.headers@).to_multiset() == header_pairs_view(u.headers@).to_multiset(),
        r.body@ == u.body@,
{
}

} // verus!
