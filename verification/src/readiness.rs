//! Readiness decisions: what the outcome of a probe means, and whether to go
//! on, to wait and probe again, or to give up. The probes themselves (a bind,
//! a connect, an HTTP call, a look at the file system) are the caller's.

use vstd::prelude::*;
use crate::request::{body_view, texts, Field, FieldValue, FieldValueView, FieldView};
use crate::text::{decimal, decimal_text};

verus! {

/// Seconds between two probes of something on this machine.
pub const LOCAL_POLL_SECONDS: u64 = 1;

/// Seconds between two probes of the control interface's port while a
/// restore waits for it.
pub const REMOTE_POLL_SECONDS: u64 = 10;

/// The HTTP status with which the chain node refuses the credentials.
pub const STATUS_UNAUTHORIZED: u16 = 401;

/// How an attempt to listen on a local TCP port ended.
#[derive(Debug, Clone, Copy, PartialEq, Eq, Structural)]
pub enum BindOutcome {
    /// The listener was bound.
    Bound,
    /// The address is in use.
    AddrInUse,
    /// The bind failed for any other reason.
    OtherError,
}

/// A readiness check that cannot be retried.
#[derive(Debug, Clone, Copy, PartialEq, Eq, Structural)]
pub enum ReadinessError {
    /// Whether the port is in use could not be determined.
    PortCheckFailed { port: u16 },
    /// The chain node refused the RPC credentials.
    InvalidCredentials,
}

/// What to do after a probe.
#[derive(Debug, Clone, Copy, PartialEq, Eq, Structural)]
pub enum Poll {
    /// What was waited for is there.
    Proceed,
    /// Sleep for so many seconds, then probe again.
    RetryAfter { seconds: u64 },
}

/// Whether a local port is free, judged by an attempt to listen on it.
pub open spec fn port_available(port: u16, bind: BindOutcome) -> Result<bool, ReadinessError> {
    match bind {
        BindOutcome::Bound => Ok(true),
        BindOutcome::AddrInUse => Ok(false),
        BindOutcome::OtherError => Err(ReadinessError::PortCheckFailed { port }),
    }
}

/// Judges whether local port `port` is free from how an attempt to listen on
/// it ended: free if it was bound, taken if the address is in use, and an
/// error for any other failure.
pub fn local_port_available(port: u16, bind: BindOutcome) -> (r: Result<bool, ReadinessError>)
    ensures
        r == port_available(port, bind),
{
    match bind {
        BindOutcome::Bound => Ok(true),
        BindOutcome::AddrInUse => Ok(false),
        BindOutcome::OtherError => Err(ReadinessError::PortCheckFailed { port }),
    }
}

/// The message of a readiness error.
pub open spec fn readiness_message(e: ReadinessError) -> Seq<char> {
    match e {
        ReadinessError::PortCheckFailed { port } => "Couldn't determine port use for "@
            + decimal_text(port as nat),
        ReadinessError::InvalidCredentials => "Invalid credentials for bitcoind"@,
    }
}

impl ReadinessError {
    /// The message to show for this error.
    pub fn message(&self) -> (r: String)
        ensures
            r@ == readiness_message(*self),
    {
        match self {
            ReadinessError::PortCheckFailed { port } => {
                let mut r = String::from_str("Couldn't determine port use for ");
                let digits = decimal(*port as u64);
                r.append(digits.as_str());
                r
            },
            ReadinessError::InvalidCredentials => String::from_str(
                "Invalid credentials for bitcoind",
            ),
        }
    }
}

/// The decision after an attempt to connect to the daemon's port, or after a
/// look for a file the daemon writes: go on if it is there, else look again
/// in a second. There is no limit to the number of attempts.
pub fn await_local(present: bool) -> (r: Poll)
    ensures
        r == (if present {
            Poll::Proceed
        } else {
            Poll::RetryAfter { seconds: LOCAL_POLL_SECONDS }
        }),
{
    if present {
        Poll::Proceed
    } else {
        Poll::RetryAfter { seconds: LOCAL_POLL_SECONDS }
    }
}

/// The error object of a JSON-RPC answer.
#[derive(Debug, Clone, PartialEq, Eq)]
pub struct BitcoindError {
    pub code: i32,
    pub message: String,
}

/// What the health check reads of a JSON-RPC 1.0 answer.
#[derive(Debug, Clone, PartialEq, Eq)]
pub struct JsonRpc1Res {
    pub error: Option<BitcoindError>,
}

/// How a health check call to the chain node ended.
#[derive(Debug, Clone, PartialEq, Eq)]
pub enum RpcReply {
    /// The request could not be sent or no response came.
    Unreachable,
    /// A response came, with this status; `body` is `None` where it is not a
    /// JSON-RPC answer.
    Answered { status: u16, body: Option<JsonRpc1Res> },
}

/// An error object as a mathematical value.
pub struct BitcoindErrorView {
    pub code: i32,
    pub message: Seq<char>,
}

/// An answer as a mathematical value.
pub struct JsonRpc1ResView {
    pub error: Option<BitcoindErrorView>,
}

/// The end of a health check as a mathematical value.
pub enum RpcReplyView {
    Unreachable,
    Answered { status: u16, body: Option<JsonRpc1ResView> },
}

impl View for BitcoindError {
    type V = BitcoindErrorView;

    open spec fn view(&self) -> BitcoindErrorView {
        BitcoindErrorView { code: self.code, message: self.message@ }
    }
}

impl View for JsonRpc1Res {
    type V = JsonRpc1ResView;

    open spec fn view(&self) -> JsonRpc1ResView {
        JsonRpc1ResView {
            error: match self.error {
                Some(e) => Some(e@),
                None => None,
            },
        }
    }
}

impl View for RpcReply {
    type V = RpcReplyView;

    open spec fn view(&self) -> RpcReplyView {
        match *self {
            RpcReply::Unreachable => RpcReplyView::Unreachable,
            RpcReply::Answered { status, body } => RpcReplyView::Answered {
                status,
                body: match body {
                    Some(answer) => Some(answer@),
                    None => None,
                },
            },
        }
    }
}

/// Where and as whom to call the chain node.
#[derive(Debug, Clone, Copy)]
pub struct BitcoindRpcInfo<'a> {
    pub host: &'a str,
    pub port: u16,
    pub user: &'a str,
    pub pass: &'a str,
}

/// The health check call: a JSON-RPC 1.0 request without parameters, posted
/// to `url` with basic authentication.
#[derive(Debug, Clone, PartialEq, Eq)]
pub struct RpcRequest {
    pub url: String,
    pub user: String,
    pub pass: String,
    pub body: Vec<Field>,
}

/// The body of the health check: the method `getblockchaininfo`, called
/// without parameters and without an id.
pub open spec fn rpc_body() -> Seq<FieldView> {
    seq![
        FieldView { name: "jsonrpc"@, value: FieldValueView::Text("1.0"@) },
        FieldView { name: "id"@, value: FieldValueView::Null },
        FieldView { name: "method"@, value: FieldValueView::Text("getblockchaininfo"@) },
        FieldView { name: "params"@, value: FieldValueView::List(Seq::empty()) },
    ]
}

/// The URL of the chain node's RPC endpoint.
pub open spec fn rpc_url_text(host: Seq<char>, port: u16) -> Seq<char> {
    "http://"@ + host + ":"@ + decimal_text(port as nat) + "/"@
}

/// The health check call for a chain node.
pub fn rpc_request(info: &BitcoindRpcInfo) -> (r: RpcRequest)
    ensures
        r.url@ == rpc_url_text(info.host@, info.port),
        r.user@ == info.user@,
        r.pass@ == info.pass@,
        body_view(r.body@) == rpc_body(),
{
    let mut url = String::from_str("http://");
    url.append(info.host);
    url.append(":");
    let digits = decimal(info.port as u64);
    url.append(digits.as_str());
    url.append("/");
    let mut body: Vec<Field> = Vec::new();
    body.push(
        Field { name: String::from_str("jsonrpc"), value: FieldValue::Text(String::from_str("1.0")) },
    );
    body.push(Field { name: String::from_str("id"), value: FieldValue::Null });
    body.push(
        Field {
            name: String::from_str("method"),
            value: FieldValue::Text(String::from_str("getblockchaininfo")),
        },
    );
    body.push(Field { name: String::from_str("params"), value: FieldValue::List(Vec::new()) });
    assert(body_view(body@) =~= rpc_body()) by {
        assert(texts(Seq::<String>::empty()) =~= Seq::<Seq<char>>::empty());
    }
    RpcRequest { url, user: String::from_str(info.user), pass: String::from_str(info.pass), body }
}

/// Whether a health check shows the chain node ready: refused credentials
/// are an error; an answer without an error object means ready; anything
/// else (no response, an unreadable answer, an error object) means not yet.
pub open spec fn rpc_ready(reply: RpcReplyView) -> Result<bool, ReadinessError> {
    match reply {
        RpcReplyView::Unreachable => Ok(false),
        RpcReplyView::Answered { status, body } => if status == STATUS_UNAUTHORIZED {
            Err(ReadinessError::InvalidCredentials)
        } else {
            match body {
                Some(answer) => Ok(answer.error is None),
                None => Ok(false),
            }
        },
    }
}

/// Judges a health check of the chain node.
pub fn bitcoin_rpc_is_ready(reply: &RpcReply) -> (r: Result<bool, ReadinessError>)
    ensures
        r == rpc_ready(reply@),
{
    match reply {
        RpcReply::Unreachable => Ok(false),
        RpcReply::Answered { status, body } => {
            if *status == STATUS_UNAUTHORIZED {
                Err(ReadinessError::InvalidCredentials)
            } else {
                match body {
                    Some(answer) => Ok(answer.error.is_none()),
                    None => Ok(false),
                }
            }
        },
    }
}

/// The decision after a health check of the chain node: go on if it is
/// ready, check again in a second if it is not, and give up at once if it
/// refuses the credentials.
pub fn await_rpc_healthy(reply: &RpcReply) -> (r: Result<Poll, ReadinessError>)
    ensures
        r == (match rpc_ready(reply@) {
            Ok(true) => Ok(Poll::Proceed),
            Ok(false) => Ok(Poll::RetryAfter { seconds: LOCAL_POLL_SECONDS }),
            Err(e) => Err(e),
        }),
{
    match bitcoin_rpc_is_ready(reply) {
        Ok(true) => Ok(Poll::Proceed),
        Ok(false) => Ok(Poll::RetryAfter { seconds: LOCAL_POLL_SECONDS }),
        Err(e) => Err(e),
    }
}

/// The decision while a restore waits for the control interface to listen
/// again: as long as the port can still be bound, nobody listens there, and
/// the probe is repeated after ten seconds.
pub fn await_port_taken(port: u16, bind: BindOutcome) -> (r: Result<Poll, ReadinessError>)
    ensures
        r == (match port_available(port, bind) {
            Ok(true) => Ok(Poll::RetryAfter { seconds: REMOTE_POLL_SECONDS }),
            Ok(false) => Ok(Poll::Proceed),
            Err(e) => Err(e),
        }),
{
    match local_port_available(port, bind) {
        Ok(true) => Ok(Poll::RetryAfter { seconds: REMOTE_POLL_SECONDS }),
        Ok(false) => Ok(Poll::Proceed),
        Err(e) => Err(e),
    }
}

/// Refused credentials are never retried, whatever else the response holds.
pub proof fn lemma_refused_credentials_are_fatal(body: Option<JsonRpc1ResView>)
    ensures
        rpc_ready(RpcReplyView::Answered { status: STATUS_UNAUTHORIZED, body }) == Err::<
            bool,
            ReadinessError,
        >(ReadinessError::InvalidCredentials),
{
}

} // verus!
