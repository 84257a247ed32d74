//! Page-to-host message relay for the native browser panel.
//!
//! A page served over HTTPS cannot reach a loopback HTTP endpoint itself: the
//! browser engine refuses an insecure request from a secure document. Its
//! messages go through the webview's own script message handler instead, and
//! the shell reposts each payload to the endpoint that was named when the panel
//! was opened. This module decides what is reposted, where to, and with which
//! bytes; the shell owns the socket.

use crate::text;
use crate::wire;
use vstd::prelude::*;
use vstd::string::*;
use vstd::utf8;

verus! {

/// Script message handler name; the page's bootstrap posts to exactly this
/// handler.
///
/// The name is a WebKit concept only: WebView2 has a single, unnamed message
/// channel per webview.
pub const HANDLER_NAME: &'static str = "dshWebReview";

/// Longest single payload, in bytes, that the relay forwards.
pub const MAX_PAYLOAD_BYTES: usize = 4_194_304;

/// How long the relay waits for the endpoint to take or to answer a request, in
/// seconds.
pub const RELAY_SECONDS: u64 = 5;

/// The relay of the current panel.
pub struct Relay {
    /// Where the current panel's page messages are relayed.
    pub endpoint: Option<String>,
    /// Whether the current panel actually carries the script message handler.
    ///
    /// A relay target alone proves nothing: the shell must also have installed
    /// the handler that the page posts to, or the panel cannot be reached from
    /// a secure document.
    pub armed: bool,
}

/// What a relay holds, over its texts.
pub struct RelayModel {
    pub endpoint: Option<Seq<char>>,
    pub armed: bool,
}

impl View for Relay {
    type V = RelayModel;

    open spec fn view(&self) -> RelayModel {
        RelayModel { endpoint: text::optional(self.endpoint), armed: self.armed }
    }
}

/// A page payload on its way to an endpoint.
pub struct RelayJob {
    pub endpoint: String,
    pub payload: String,
}

/// One HTTP request: the address to connect to, and the bytes to write there.
pub struct PostRequest {
    pub authority: String,
    pub bytes: Vec<u8>,
}

impl Relay {
    /// A relay without a target, not armed.
    pub fn new() -> (relay: Relay)
        ensures
            relay.endpoint is None,
            !relay.armed,
    {
        Relay { endpoint: None, armed: false }
    }
}

/// Whether the panel can receive page messages (diagnostic for `/panel/state`).
pub fn armed(relay: &Relay) -> (armed: bool)
    ensures
        armed == relay.armed,
{
    relay.armed
}

/// Point the relay at the loopback endpoint that the current panel reports to.
pub fn set_endpoint(relay: &mut Relay, endpoint: Option<String>)
    ensures
        final(relay).endpoint == endpoint,
        !final(relay).armed,
{
    relay.endpoint = endpoint;
    relay.armed = false;
}

/// Record that the current panel carries the script message handler.
pub fn arm(relay: &mut Relay)
    ensures
        final(relay).endpoint == old(relay).endpoint,
        final(relay).armed,
{
    relay.armed = true;
}

/// Whether a payload may be forwarded: it is not empty, and its UTF-8 form is
/// within [`MAX_PAYLOAD_BYTES`].
pub open spec fn forwardable(payload: Seq<char>) -> bool {
    0 < payload.len() && utf8::encode_utf8(payload).len() <= MAX_PAYLOAD_BYTES
}

/// The job of relaying one page payload, if it is to be relayed at all.
pub fn relay(bridge: &Relay, payload: String) -> (job: Option<RelayJob>)
    ensures
        job is Some <==> bridge.endpoint is Some && forwardable(payload@),
        job matches Some(job) ==> Some(job.endpoint) == bridge.endpoint && job.payload == payload,
{
    if payload.as_str().is_empty() || payload.as_str().as_bytes().len() > MAX_PAYLOAD_BYTES {
        return None;
    }
    match &bridge.endpoint {
        Some(endpoint) => Some(RelayJob { endpoint: endpoint.clone(), payload }),
        None => None,
    }
}

/// The address and the path that an endpoint names, or why it is refused.
pub open spec fn target_of(endpoint: Seq<char>) -> Result<(Seq<char>, Seq<char>), Seq<char>> {
    if !text::begins_with(endpoint, "http://"@) {
        Err("relay endpoint must be loopback http"@)
    } else {
        let rest = endpoint.skip("http://"@.len() as int);
        let (authority, path) = match text::find_from(rest, "/"@, 0) {
            Some(slash) => (rest.take(slash), rest.skip(slash)),
            None => (rest, "/"@),
        };
        if text::begins_with(authority, "127.0.0.1:"@) {
            Ok((authority, path))
        } else {
            Err("relay endpoint must be loopback"@)
        }
    }
}

/// The head of a request that posts `length` bytes of JSON.
pub open spec fn post_head(authority: Seq<char>, path: Seq<char>, length: nat) -> Seq<char> {
    "POST "@ + path + " HTTP/1.1\r\nHost: "@ + authority
        + "\r\nContent-Type: application/json\r\nContent-Length: "@ + text::decimal_of(length)
        + "\r\nConnection: close\r\n\r\n"@
}

/// The one request that carries `body` to `endpoint`: a minimal HTTP/1.1 POST.
///
/// Only a loopback endpoint may be posted to, and only over http.
pub fn post(endpoint: &str, body: &[u8]) -> (request: Result<PostRequest, String>)
    ensures
        match (request, target_of(endpoint@)) {
            (Ok(request), Ok((authority, path))) => {
                &&& request.authority@ == authority
                &&& request.bytes@ == utf8::encode_utf8(post_head(authority, path, body@.len())) + body@
            },
            (Err(refused), Err(reason)) => refused@ == reason,
            _ => false,
        },
{
    let chars = text::characters(endpoint);
    if !text::starts_with(&chars, "http://") {
        return Err("relay endpoint must be loopback http".to_owned());
    }
    proof {
        reveal_strlit("http://");
    }
    let rest_text = text::slice_text(&chars, 7, chars.len());
    let rest = text::characters(rest_text.as_str());
    assert(rest@ =~= endpoint@.skip(7));
    let (authority, path) = match text::find(&rest, "/") {
        Some(slash) => {
            proof {
                text::lemma_find_from(rest@, "/"@, 0);
            }
            (text::slice_text(&rest, 0, slash), text::slice_text(&rest, slash, rest.len()))
        },
        None => (rest_text, "/".to_owned()),
    };
    assert(text::find_from(rest@, "/"@, 0) matches Some(slash) ==> {
        &&& authority@ =~= rest@.take(slash)
        &&& path@ =~= rest@.skip(slash)
    });
    if !text::starts_with(&text::characters(authority.as_str()), "127.0.0.1:") {
        return Err("relay endpoint must be loopback".to_owned());
    }
    let mut head = "POST ".to_owned();
    head.append(path.as_str());
    head.append(" HTTP/1.1\r\nHost: ");
    head.append(authority.as_str());
    head.append("\r\nContent-Type: application/json\r\nContent-Length: ");
    head.append(text::decimal(body.len() as u64).as_str());
    head.append("\r\nConnection: close\r\n\r\n");
    let mut bytes = head.as_str().as_bytes_vec();
    bytes.extend_from_slice(body);
    assert(bytes@ =~= utf8::encode_utf8(head@) + body@);
    Ok(PostRequest { authority, bytes })
}

/// With a target, every payload that is not empty and whose UTF-8 form has at most
/// four mebibytes is relayed as it is, whatever its characters are, to that
/// target; an empty payload, a longer one, and one without a target are not.
pub proof fn law_relay_takes_what_fits(bridge: &Relay, payload: String, job: Option<RelayJob>)
    requires
        call_ensures(relay, (bridge, payload), job),
    ensures
        payload@.len() > 0 && utf8::encode_utf8(payload@).len() <= 4 * 1024 * 1024
            && bridge.endpoint is Some ==> {
            &&& job is Some
            &&& job->0.endpoint@ == bridge.endpoint->0@
            &&& job->0.payload@ == payload@
        },
        payload@.len() == 0 ==> job is None,
        utf8::encode_utf8(payload@).len() > 4 * 1024 * 1024 ==> job is None,
        bridge.endpoint is None ==> job is None,
{
}

/// A target is kept as it was given, and disarms the relay; an installed handler
/// arms it, and leaves the target as it was.
pub proof fn law_target_and_handler(
    bridge: &mut Relay,
    endpoint: Option<String>,
    handled: &mut Relay,
    told: bool,
    fresh: Relay,
)
    requires
        call_ensures(set_endpoint, (bridge, endpoint), ()),
        call_ensures(arm, (handled,), ()),
        call_ensures(armed, (final(handled),), told),
        call_ensures(Relay::new, (), fresh),
    ensures
        text::optional(final(bridge).endpoint) == text::optional(endpoint),
        !final(bridge).armed,
        told,
        text::optional(final(handled).endpoint) == text::optional(old(handled).endpoint),
        fresh.endpoint is None && !fresh.armed,
{
}

/// What is told of the relay is whether it is armed.
pub proof fn law_armed_is_told(bridge: &Relay, told: bool)
    requires
        call_ensures(armed, (bridge,), told),
    ensures
        told == bridge.armed,
{
}

/// An endpoint is the scheme, the address up to the first slash, and the path from
/// there on; one on loopback is posted to, whatever its port and its path, and
/// the request goes to that address.
pub proof fn law_post_goes_to_the_endpoint(
    endpoint: &str,
    port: Seq<char>,
    path: Seq<char>,
    body: &[u8],
    request: Result<PostRequest, String>,
)
    requires
        call_ensures(post, (endpoint, body), request),
        endpoint@ == "http://127.0.0.1:"@ + port + path,
        forall|i: int| 0 <= i < port.len() ==> #[trigger] port[i] != '/',
        path.len() > 0 ==> path[0] == '/',
    ensures
        request matches Ok(request) && {
            let authority = "127.0.0.1:"@ + port;
            let asked = if path.len() == 0 {
                "/"@
            } else {
                path
            };
            &&& request.authority@ == authority
            &&& request.bytes@ == utf8::encode_utf8(
                "POST "@ + asked + " HTTP/1.1\r\nHost: "@ + authority
                    + "\r\nContent-Type: application/json\r\nContent-Length: "@
                    + text::decimal_of(body@.len()) + "\r\nConnection: close\r\n\r\n"@,
            ) + body@
        },
{
    reveal_strlit("http://");
    reveal_strlit("127.0.0.1:");
    reveal_strlit("http://127.0.0.1:");
    reveal_strlit("/");
    let address = "127.0.0.1:"@;
    let authority = address + port;
    assert("http://127.0.0.1:"@ =~= "http://"@ + address);
    assert(endpoint@ =~= "http://"@ + (authority + path));
    assert(endpoint@.subrange(0, 7) =~= "http://"@);
    let rest = endpoint@.skip(7);
    assert(rest =~= authority + path);
    assert forall|at: int| 0 <= at < authority.len() implies !text::occurs_at(rest, "/"@, at) by {
        if text::occurs_at(rest, "/"@, at) {
            assert(rest.subrange(at, at + 1)[0] == rest[at]);
            assert(rest[at] == authority[at]);
            if at >= 10 {
                assert(authority[at] == port[at - 10]);
            } else {
                assert(authority[at] == address[at]);
            }
        }
    }
    if path.len() > 0 {
        assert(rest.subrange(authority.len() as int, authority.len() as int + 1) =~= "/"@);
        text::lemma_find_from_is(rest, "/"@, 0, authority.len() as int);
        assert(rest.take(authority.len() as int) =~= authority);
        assert(rest.skip(authority.len() as int) =~= path);
    } else {
        text::lemma_find_from(rest, "/"@, 0);
        assert(rest =~= authority);
    }
    assert(authority.subrange(0, 10) =~= address);
}

/// Nothing but loopback over http is posted to: an endpoint of another scheme is
/// refused as that, and one of another address as that.
pub proof fn law_post_refuses_the_rest(
    endpoint: &str,
    body: &[u8],
    request: Result<PostRequest, String>,
)
    requires
        call_ensures(post, (endpoint, body), request),
        !text::begins_with(endpoint@, "http://127.0.0.1:"@),
    ensures
        request matches Err(reason) && reason@ == if text::begins_with(endpoint@, "http://"@) {
            "relay endpoint must be loopback"@
        } else {
            "relay endpoint must be loopback http"@
        },
{
    wire::law_only_loopback(endpoint@);
}

/// How long the endpoint is waited for, and where the page posts to.
pub proof fn law_relay_terms()
    ensures
        RELAY_SECONDS == 5,
        MAX_PAYLOAD_BYTES == 4 * 1024 * 1024,
        HANDLER_NAME@ == "dshWebReview"@,
{
}

} // verus!
