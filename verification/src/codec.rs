//! The judgement of a reply: which replies count as success, and which
//! failure each of the others is.

use vstd::prelude::*;

use crate::error::{ClashError, Failure, Operation, TransportError};
use crate::model::{
    ConfigResponse, ConnectionsResponse, DelayResponse, MemoryResponse, Mode, Proxy,
};
use crate::reconcile::{reconcile, reconciled};
use crate::snapshot::ProxySnapshot;

verus! {

/// The number of bytes of an undecodable body that an error keeps.
pub const PREVIEW_LIMIT: usize = 256;

/// What the daemon answered.
#[derive(Clone, Debug, PartialEq, Eq)]
pub struct Response {
    pub status: u16,
    pub body: Vec<u8>,
}

/// What came of one exchange: the response or the failure of the transport,
/// and the record that the decoder made of the body. `decoded` is `None`
/// where the body was not decoded or could not be.
pub struct Reply<T> {
    pub outcome: Result<Response, TransportError>,
    pub decoded: Option<T>,
}

/// A status that stands for success: from 200 to 299.
pub open spec fn is_success(status: u16) -> bool {
    200 <= status < 300
}

/// The start of a body that an error keeps: the whole body where it is
/// within the limit, and its first bytes up to the limit otherwise.
pub open spec fn preview(body: Seq<u8>) -> Seq<u8> {
    if body.len() <= PREVIEW_LIMIT {
        body
    } else {
        body.take(PREVIEW_LIMIT as int)
    }
}

/// The failure that an outcome stands for without regard to the body: that of
/// the transport, or a status outside 200 to 299.
pub open spec fn outcome_failure(
    operation: Operation,
    outcome: Result<Response, TransportError>,
) -> Option<Failure> {
    match outcome {
        Err(cause) => Some(Failure::Transport(operation, cause)),
        Ok(response) => if is_success(response.status) {
            None
        } else {
            Some(Failure::HttpStatus(operation, response.status))
        },
    }
}

/// The failure that a reply stands for, if any: that of its outcome, or,
/// on a successful status, a body of which the decoder made no record.
pub open spec fn reply_failure<T>(operation: Operation, reply: Reply<T>) -> Option<Failure> {
    match outcome_failure(operation, reply.outcome) {
        Some(failure) => Some(failure),
        None => if reply.decoded is None {
            Some(Failure::Decode(operation, preview(reply.outcome->Ok_0.body@)))
        } else {
            None
        },
    }
}

impl Response {
    /// Whether the status stands for success, so that the body is to be
    /// decoded.
    pub fn is_success(&self) -> (r: bool)
        ensures
            r == is_success(self.status),
    {
        200 <= self.status && self.status < 300
    }
}

/// The start of a body that an error keeps.
pub fn take_preview(body: &Vec<u8>) -> (r: Vec<u8>)
    ensures
        r@ == preview(body@),
        r@.len() <= PREVIEW_LIMIT,
{
    let end: usize = if body.len() <= PREVIEW_LIMIT {
        body.len()
    } else {
        PREVIEW_LIMIT
    };
    let mut out: Vec<u8> = Vec::new();
    let mut i: usize = 0;
    while i < end
        invariant
            i <= end <= body.len(),
            out@ == body@.take(i as int),
        decreases end - i,
    {
        out.push(body[i]);
        assert(out@ =~= body@.take(i + 1));
        i += 1;
    }
    assert(body@.take(body@.len() as int) =~= body@);
    out
}

/// Judges the outcome of an operation whose response carries nothing to
/// read.
pub fn acknowledge(operation: Operation, outcome: Result<Response, TransportError>) -> (r: Result<
    (),
    ClashError,
>)
    ensures
        match outcome_failure(operation, outcome) {
            Some(failure) => r is Err && r->Err_0@ == failure,
            None => r is Ok,
        },
{
    match outcome {
        Err(cause) => Err(ClashError::TransportError(operation, cause)),
        Ok(response) => {
            if response.is_success() {
                Ok(())
            } else {
                Err(ClashError::HttpStatusError(operation, response.status))
            }
        },
    }
}

/// Judges the reply to an operation that reads a record: the record where
/// the status stands for success and the body was decoded, and otherwise
/// the failure of the transport, the status, or the start of the body that
/// could not be decoded.
pub fn settle<T>(operation: Operation, reply: Reply<T>) -> (r: Result<T, ClashError>)
    ensures
        match reply_failure(operation, reply) {
            Some(failure) => r is Err && r->Err_0@ == failure,
            None => r == Ok::<T, ClashError>(reply.decoded.unwrap()),
        },
{
    match reply.outcome {
        Err(cause) => Err(ClashError::TransportError(operation, cause)),
        Ok(response) => {
            if !response.is_success() {
                Err(ClashError::HttpStatusError(operation, response.status))
            } else {
                match reply.decoded {
                    Some(record) => Ok(record),
                    None => Err(ClashError::DecodeError(operation, take_preview(&response.body))),
                }
            }
        },
    }
}

/// The mode that orders the proxies: the daemon's, or rule mode where its
/// configuration names none.
pub open spec fn effective_mode(mode: Option<Mode>) -> Mode {
    match mode {
        Some(mode) => mode,
        None => Mode::Rule,
    }
}

/// The mode that orders the proxies.
pub fn mode_or_rule(mode: Option<Mode>) -> (r: Mode)
    ensures
        r == effective_mode(mode),
{
    match mode {
        Some(mode) => mode,
        None => Mode::Rule,
    }
}

/// Reads the reply to a request for the proxies and orders them for the mode
/// that the daemon is in.
pub fn read_proxies(mode: Option<Mode>, reply: Reply<ProxySnapshot>) -> (r: Result<
    Vec<Proxy>,
    ClashError,
>)
    requires
        reply.decoded is Some ==> reply.decoded.unwrap().wf(),
    ensures
        match reply_failure(Operation::GetProxies, reply) {
            Some(failure) => r is Err && r->Err_0@ == failure,
            None => r is Ok && r.unwrap().deep_view() == reconciled(
                reply.decoded.unwrap()@,
                effective_mode(mode),
            ),
        },
{
    match settle(Operation::GetProxies, reply) {
        Ok(snapshot) => Ok(reconcile(&snapshot, mode_or_rule(mode))),
        Err(error) => Err(error),
    }
}

/// Reads the reply to a delay test.
pub fn read_delay(reply: Reply<DelayResponse>) -> (r: Result<DelayResponse, ClashError>)
    ensures
        match reply_failure(Operation::GetProxyDelay, reply) {
            Some(failure) => r is Err && r->Err_0@ == failure,
            None => r == Ok::<DelayResponse, ClashError>(reply.decoded.unwrap()),
        },
{
    settle(Operation::GetProxyDelay, reply)
}

/// Reads the reply to a request for the memory figures.
pub fn read_memory(reply: Reply<MemoryResponse>) -> (r: Result<MemoryResponse, ClashError>)
    ensures
        match reply_failure(Operation::GetMemory, reply) {
            Some(failure) => r is Err && r->Err_0@ == failure,
            None => r == Ok::<MemoryResponse, ClashError>(reply.decoded.unwrap()),
        },
{
    settle(Operation::GetMemory, reply)
}

/// Reads the reply to a request for the connections.
pub fn read_connections(reply: Reply<ConnectionsResponse>) -> (r: Result<
    ConnectionsResponse,
    ClashError,
>)
    ensures
        match reply_failure(Operation::GetConnections, reply) {
            Some(failure) => r is Err && r->Err_0@ == failure,
            None => r == Ok::<ConnectionsResponse, ClashError>(reply.decoded.unwrap()),
        },
{
    settle(Operation::GetConnections, reply)
}

/// Reads the reply to a request for the configuration.
pub fn read_configs(reply: Reply<ConfigResponse>) -> (r: Result<ConfigResponse, ClashError>)
    ensures
        match reply_failure(Operation::GetConfigs, reply) {
            Some(failure) => r is Err && r->Err_0@ == failure,
            None => r == Ok::<ConfigResponse, ClashError>(reply.decoded.unwrap()),
        },
{
    settle(Operation::GetConfigs, reply)
}

/// Reads the mode out of the reply to a request for the configuration. A
/// reply that fails as a configuration fails here in the same way: no
/// failure is turned into an absent mode.
pub fn read_mode(reply: Reply<ConfigResponse>) -> (r: Result<Option<Mode>, ClashError>)
    ensures
        match reply_failure(Operation::GetConfigs, reply) {
            Some(failure) => r is Err && r->Err_0@ == failure,
            None => r == Ok::<Option<Mode>, ClashError>(reply.decoded.unwrap().mode),
        },
{
    match read_configs(reply) {
        Ok(config) => Ok(config.mode),
        Err(error) => Err(error),
    }
}

/// A status from 200 to 299 with a decoded body is the only reply that
/// gives a record; every other reply gives a failure that names the
/// operation.
pub proof fn lemma_reply_failure_cases<T>(operation: Operation, reply: Reply<T>)
    ensures
        reply_failure(operation, reply) is None <==> (reply.outcome is Ok && is_success(
            reply.outcome->Ok_0.status,
        ) && reply.decoded is Some),
        reply.outcome is Ok && !is_success(reply.outcome->Ok_0.status) ==> reply_failure(
            operation,
            reply,
        ) == Some(Failure::HttpStatus(operation, reply.outcome->Ok_0.status)),
        reply.outcome is Err ==> reply_failure(operation, reply) == Some(
            Failure::Transport(operation, reply.outcome->Err_0),
        ),
{
}

/// The start of a body that an error keeps is a prefix of the body and is
/// never longer than the limit.
pub proof fn lemma_preview_bounded(body: Seq<u8>)
    ensures
        preview(body).len() <= PREVIEW_LIMIT,
        preview(body).len() <= body.len(),
        preview(body) == body.take(preview(body).len() as int),
{
    assert(body.take(body.len() as int) =~= body);
}

/// Reading the mode fails exactly where reading the configuration fails, and
/// with the same failure.
pub proof fn lemma_mode_fails_as_configs(
    reply: Reply<ConfigResponse>,
    configs: Result<ConfigResponse, ClashError>,
    mode: Result<Option<Mode>, ClashError>,
)
    requires
        match reply_failure(Operation::GetConfigs, reply) {
            Some(failure) => configs is Err && configs->Err_0@ == failure,
            None => configs == Ok::<ConfigResponse, ClashError>(reply.decoded.unwrap()),
        },
        match reply_failure(Operation::GetConfigs, reply) {
            Some(failure) => mode is Err && mode->Err_0@ == failure,
            None => mode == Ok::<Option<Mode>, ClashError>(reply.decoded.unwrap().mode),
        },
    ensures
        configs is Err <==> mode is Err,
        configs is Err ==> mode->Err_0@ == configs->Err_0@,
        configs is Ok ==> mode == Ok::<Option<Mode>, ClashError>(configs.unwrap().mode),
{
}

} // verus!
