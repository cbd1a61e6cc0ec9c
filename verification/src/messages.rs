//! The request/reply pair the bridge exchanges with its caller, the sentinel
//! status replies the bridge emits about the proxy itself, the control-action
//! step, and the log lines around a request — which must redact the payload
//! outside debug mode.

use vstd::prelude::*;
use vstd::string::StringExecFns;

use crate::state::BridgeState;
use crate::text::{dec_digits, lemma_contains_suffix, seq_contains, u32_to_dec};

verus! {

/// An inbound request: `id` is caller-supplied and echoed back unchanged;
/// `action` marks a control request that never reaches the network.
pub struct ReqMessage {
    pub id: String,
    pub url: String,
    pub method: String,
    pub body: Option<String>,
    pub params: Option<Vec<(String, String)>>,
    pub headers: Option<Vec<(String, String)>>,
    pub action: Option<String>,
    pub certificate: Option<String>,
}

/// An outbound reply.
pub struct ResMessage {
    pub id: String,
    pub status: u16,
    pub body: String,
    pub headers: Vec<(String, String)>,
}

impl Default for ReqMessage {
    /// An empty GET with nothing optional set.
    fn default() -> (r: ReqMessage)
        ensures
            r.id@ == Seq::<char>::empty(),
            r.url@ == Seq::<char>::empty(),
            r.method@ == "GET"@,
            r.body is None,
            r.params is None,
            r.headers is None,
            r.action is None,
            r.certificate is None,
    {
        ReqMessage {
            id: String::new(),
            url: String::new(),
            method: "GET".to_owned(),
            body: None,
            params: None,
            headers: None,
            action: None,
            certificate: None,
        }
    }
}

/// The single header pair that marks a reply as generated by the bridge
/// itself rather than relayed from upstream.
pub open spec fn has_internal_marker(h: Seq<(String, String)>) -> bool {
    h.len() == 1 && h[0].0@ == "X-Alby-Internal"@ && h[0].1@ == "true"@
}

fn internal_marker_headers() -> (r: Vec<(String, String)>)
    ensures
        has_internal_marker(r@),
{
    let mut r: Vec<(String, String)> = Vec::new();
    r.push(("X-Alby-Internal".to_owned(), "true".to_owned()));
    r
}

/// The reply that reports the proxy up and usable.
pub open spec fn is_started_reply(r: ResMessage) -> bool {
    r.id@ == "status"@ && r.status == 100 && r.body@ == "tor_started"@ && has_internal_marker(
        r.headers@,
    )
}

/// The reply that reports the proxy did not come up in time.
pub open spec fn is_failed_start_reply(r: ResMessage) -> bool {
    r.id@ == "status"@ && r.status == 502 && r.body@ == "Can not launch Tor"@ && has_internal_marker(
        r.headers@,
    )
}

pub fn get_tor_started_msg() -> (r: ResMessage)
    ensures
        is_started_reply(r),
{
    ResMessage {
        id: "status".to_owned(),
        status: 100,
        body: "tor_started".to_owned(),
        headers: internal_marker_headers(),
    }
}

pub fn get_tor_failed_start_msg() -> (r: ResMessage)
    ensures
        is_failed_start_reply(r),
{
    ResMessage {
        id: "status".to_owned(),
        status: 502,
        body: "Can not launch Tor".to_owned(),
        headers: internal_marker_headers(),
    }
}

/// The reply for a request the bridge could not serve: the caller's id, a 500
/// status, the failure's description, and the internal marker.
pub fn get_internal_error_msg(id: String, err: String) -> (r: ResMessage)
    ensures
        r.id@ == id@,
        r.status == 500,
        r.body@ == err@,
        has_internal_marker(r.headers@),
{
    ResMessage { id, status: 500, body: err, headers: internal_marker_headers() }
}

/// What a start-proxy control request does next.
#[derive(Clone, Copy, Debug, PartialEq, Eq, Structural)]
pub enum StartStep {
    /// The proxy is already started: answer at once, touch nothing.
    AlreadyStarted,
    /// This call claimed the launch: spawn the subprocess and await readiness.
    LaunchAndWait,
}

/// The control action as a transition on the shared flags.
pub open spec fn start_action_transition(s: BridgeState) -> (BridgeState, StartStep) {
    if s.tor_started {
        (s, StartStep::AlreadyStarted)
    } else {
        ((BridgeState { tor_started: true, ..s }), StartStep::LaunchAndWait)
    }
}

/// Handles the start-proxy control action against the shared flags: a second
/// call can never claim the launch again.
pub fn start_proxy_step(st: &mut BridgeState) -> (step: StartStep)
    ensures
        (*final(st), step) == start_action_transition(*old(st)),
{
    if crate::state::is_tor_started(st) {
        StartStep::AlreadyStarted
    } else {
        let _ = crate::state::try_begin_launch(st);
        StartStep::LaunchAndWait
    }
}

/// Idempotent control action law: whatever the first start-proxy request did,
/// a second one in sequence reports the proxy already started and changes
/// nothing.
pub proof fn lemma_start_action_idempotent(s: BridgeState)
    ensures
        ({
            let (s1, _) = start_action_transition(s);
            let (s2, a2) = start_action_transition(s1);
            a2 == StartStep::AlreadyStarted && s2 == s1
        }),
{
}

/// The reply to a start-proxy control request: the started sentinel if the
/// proxy was already up or came up before the wait ran out, else the
/// failed-start sentinel.
pub fn start_action_reply(came_up: bool) -> (r: ResMessage)
    ensures
        came_up ==> is_started_reply(r),
        !came_up ==> is_failed_start_reply(r),
{
    if came_up {
        get_tor_started_msg()
    } else {
        get_tor_failed_start_msg()
    }
}

/// Recognizes the one control action the bridge knows: start the proxy now.
pub fn is_start_tor_action(action: &Option<String>) -> (r: bool)
    ensures
        r == (match action {
            Some(a) => a@ == "startTor"@,
            None => false,
        }),
{
    match action {
        Some(a) => crate::text::str_eq(a.as_str(), "startTor"),
        None => false,
    }
}

/// The reply body wrapped around a dispatcher failure.
pub fn resource_error_body(detail: &str) -> (r: String)
    ensures
        r@ == "Can not get response from resource: "@ + detail@,
{
    let mut s = "Can not get response from resource: ".to_owned();
    s.append(detail);
    s
}

pub open spec fn opt_body_view(b: Option<String>) -> Seq<char> {
    match b {
        Some(s) => s@,
        None => Seq::<char>::empty(),
    }
}

/// The log line recorded when a request arrives. Outside debug mode it names
/// only the request id; in debug mode it spells the request out, body
/// included.
pub open spec fn request_log_view(m: ReqMessage, debug: bool) -> Seq<char> {
    if debug {
        "message received: "@ + m.id@ + " url: "@ + m.url@ + " method: "@ + m.method@ + " body: "@
            + opt_body_view(m.body)
    } else {
        "message received: "@ + m.id@
    }
}

pub fn request_log_line(m: &ReqMessage, debug: bool) -> (r: String)
    ensures
        r@ == request_log_view(*m, debug),
{
    let mut s = "message received: ".to_owned();
    s.append(m.id.as_str());
    if debug {
        s.append(" url: ");
        s.append(m.url.as_str());
        s.append(" method: ");
        s.append(m.method.as_str());
        s.append(" body: ");
        match &m.body {
            Some(b) => s.append(b.as_str()),
            None => (),
        }
    }
    s
}

/// The log line recorded when a response comes back. Outside debug mode it
/// names only the status; in debug mode it carries the response body.
pub open spec fn response_log_view(id: Seq<char>, status: u16, body: Seq<char>, debug: bool) -> Seq<
    char,
> {
    if debug {
        "["@ + id + "] server response status: "@ + dec_digits(status as nat) + " response: "@
            + body
    } else {
        "["@ + id + "] server response status: "@ + dec_digits(status as nat)
    }
}

pub fn response_log_line(id: &str, status: u16, body: &str, debug: bool) -> (r: String)
    ensures
        r@ == response_log_view(id@, status, body@, debug),
{
    let mut s = "[".to_owned();
    s.append(id);
    s.append("] server response status: ");
    let d = u32_to_dec(status as u32);
    s.append(d.as_str());
    if debug {
        s.append(" response: ");
        s.append(body);
    }
    s
}

/// Redaction law, request side: outside debug mode the log line for a request
/// is a function of the request id alone — two requests with the same id but
/// different bodies, urls, methods or anything else log the very same line.
pub proof fn lemma_request_line_redacted(a: ReqMessage, b: ReqMessage)
    requires
        a.id@ == b.id@,
    ensures
        request_log_view(a, false) == request_log_view(b, false),
{
}

/// In debug mode the request body does appear in the log line.
pub proof fn lemma_debug_line_shows_body(m: ReqMessage)
    ensures
        seq_contains(request_log_view(m, true), opt_body_view(m.body)),
{
    let pre = "message received: "@ + m.id@ + " url: "@ + m.url@ + " method: "@ + m.method@
        + " body: "@;
    lemma_contains_suffix(pre, opt_body_view(m.body));
    assert(pre + opt_body_view(m.body) =~= request_log_view(m, true));
}

/// Redaction law, response side: outside debug mode the response log line is
/// a function of the id and status alone.
pub proof fn lemma_response_line_redacted(
    id: Seq<char>,
    status: u16,
    body1: Seq<char>,
    body2: Seq<char>,
)
    ensures
        response_log_view(id, status, body1, false) == response_log_view(id, status, body2, false),
{
}

} // verus!
