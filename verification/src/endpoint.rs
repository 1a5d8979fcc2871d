//! The control endpoint of the daemon: a Unix domain socket or a base URL.

use vstd::prelude::*;
use vstd::string::StringExecFns;

use crate::error::{ClashError, ConfigurationFault};

verus! {

/// Where the daemon listens for control requests. Exactly one transport is
/// chosen when the value is made, and every request goes through it.
#[derive(Clone, Debug, PartialEq, Eq)]
pub enum ControlEndpoint {
    /// A Unix domain socket at a path of the file system.
    UnixSocket { path: String },
    /// A base URL, to which the path of each request is appended.
    Http { base_url: String },
}

/// Where a request goes.
#[derive(Clone, Debug, PartialEq, Eq)]
pub enum Target {
    /// To the Unix domain socket at a path of the file system.
    UnixSocket { socket_path: String },
    /// To an absolute URL.
    Http { url: String },
}

/// Whether a target is where a request with a path goes through an endpoint:
/// the socket of the endpoint, or its base URL followed by the path.
pub open spec fn aims_at(target: Target, endpoint: ControlEndpoint, path: Seq<char>) -> bool {
    match endpoint {
        ControlEndpoint::UnixSocket { path: socket } => target matches Target::UnixSocket {
            socket_path,
        } && socket_path@ == socket@,
        ControlEndpoint::Http { base_url } => target matches Target::Http { url } && url@
            == base_url@ + path,
    }
}

/// The fault in a choice of transports, if any: none or both chosen, or a
/// socket chosen where there are no Unix domain sockets.
pub open spec fn fault_of(socket: bool, http: bool, unix_sockets: bool) -> Option<
    ConfigurationFault,
> {
    if socket && http {
        Some(ConfigurationFault::BothTransports)
    } else if !socket && !http {
        Some(ConfigurationFault::NoTransport)
    } else if socket && !unix_sockets {
        Some(ConfigurationFault::UnixSocketsUnsupported)
    } else {
        None
    }
}

/// A choice of transports is accepted exactly where one transport is
/// chosen and the platform has it.
pub proof fn lemma_one_transport_accepted(socket: bool, http: bool, unix_sockets: bool)
    ensures
        fault_of(socket, http, unix_sockets) is None <==> ((socket && !http && unix_sockets) || (
        !socket && http)),
{
}

/// A request goes through the transport of the endpoint and through no
/// other.
pub proof fn lemma_target_keeps_transport(
    target: Target,
    endpoint: ControlEndpoint,
    path: Seq<char>,
)
    requires
        aims_at(target, endpoint, path),
    ensures
        endpoint is UnixSocket <==> target is UnixSocket,
        endpoint is Http <==> target is Http,
{
}

impl ControlEndpoint {
    /// Chooses the endpoint from what a caller configured, before any request
    /// is made. `unix_sockets` says whether the platform has Unix domain
    /// sockets.
    pub fn select(socket_path: Option<String>, http_url: Option<String>, unix_sockets: bool) -> (r:
        Result<ControlEndpoint, ClashError>)
        ensures
            match fault_of(socket_path is Some, http_url is Some, unix_sockets) {
                Some(fault) => r == Err::<ControlEndpoint, ClashError>(
                    ClashError::ConfigurationError(fault),
                ),
                None => match socket_path {
                    Some(path) => r == Ok::<ControlEndpoint, ClashError>(
                        ControlEndpoint::UnixSocket { path },
                    ),
                    None => r == Ok::<ControlEndpoint, ClashError>(
                        ControlEndpoint::Http { base_url: http_url.unwrap() },
                    ),
                },
            },
    {
        match (socket_path, http_url) {
            (Some(_), Some(_)) => Err(
                ClashError::ConfigurationError(ConfigurationFault::BothTransports),
            ),
            (None, None) => Err(ClashError::ConfigurationError(ConfigurationFault::NoTransport)),
            (Some(path), None) => {
                if unix_sockets {
                    Ok(ControlEndpoint::UnixSocket { path })
                } else {
                    Err(ClashError::ConfigurationError(ConfigurationFault::UnixSocketsUnsupported))
                }
            },
            (None, Some(base_url)) => Ok(ControlEndpoint::Http { base_url }),
        }
    }

    /// Where a request with a path goes.
    pub fn target(&self, path: &str) -> (r: Target)
        ensures
            aims_at(r, *self, path@),
    {
        match self {
            ControlEndpoint::UnixSocket { path: socket } => Target::UnixSocket {
                socket_path: socket.clone(),
            },
            ControlEndpoint::Http { base_url } => {
                let mut url = base_url.clone();
                url.append(path);
                Target::Http { url }
            },
        }
    }
}

} // verus!
