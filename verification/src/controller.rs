//! The controller: the calls of the control API as requests to send.

use vstd::prelude::*;
use vstd::string::StringExecFns;

use crate::codec::{effective_mode, mode_or_rule, read_mode, reply_failure, Reply};
use crate::endpoint::ControlEndpoint;
use crate::error::{ClashError, Operation};
use crate::json::encode_object;
use crate::model::{ConfigResponse, Mode, Proxy};
use crate::patch::ConfigPatch;
use crate::reconcile::{direct_proxy, reconcile};
use crate::request::{
    assemble, build_delay_path, build_proxy_path, configs_path, connections_path, delay_path,
    is_request, memory_path, method_for, mode_fields, proxies_path, proxy_path, select_fields,
    Request,
};
use crate::snapshot::ProxySnapshot;

verus! {

/// A client of the control API of one daemon.
#[derive(Clone, Debug)]
pub struct ClashController {
    endpoint: ControlEndpoint,
}

/// What to do next to list the proxies.
pub enum ProxiesStep {
    /// Nothing is to be asked of the daemon: these are the proxies to show.
    Shown(Vec<Proxy>),
    /// Send this request, and order the proxies of the reply.
    Fetch(Request),
}

/// Whether a step is the first step of listing the proxies through an
/// endpoint in a mode: the stand-in alone in direct mode, and in every other
/// mode the request for the proxies.
pub open spec fn is_proxies_step(
    step: ProxiesStep,
    endpoint: ControlEndpoint,
    mode: Option<Mode>,
) -> bool {
    match step {
        ProxiesStep::Shown(proxies) => effective_mode(mode) == Mode::Direct && proxies.deep_view()
            == seq![direct_proxy()],
        ProxiesStep::Fetch(request) => effective_mode(mode) != Mode::Direct && is_request(
            request,
            Operation::GetProxies,
            endpoint,
            proxies_path(),
            None,
        ),
    }
}

impl ClashController {
    /// The endpoint that the requests go through, in contracts.
    pub closed spec fn spec_endpoint(&self) -> ControlEndpoint {
        self.endpoint
    }

    /// A controller that reaches the daemon through a Unix domain socket; the
    /// same as `new_unix`.
    pub fn new(socket_path: String) -> (r: Self)
        ensures
            r.spec_endpoint() == (ControlEndpoint::UnixSocket { path: socket_path }),
    {
        ClashController::new_unix(socket_path)
    }

    /// A controller that reaches the daemon through a Unix domain socket.
    pub fn new_unix(socket_path: String) -> (r: Self)
        ensures
            r.spec_endpoint() == (ControlEndpoint::UnixSocket { path: socket_path }),
    {
        ClashController { endpoint: ControlEndpoint::UnixSocket { path: socket_path } }
    }

    /// A controller that reaches the daemon over HTTP at a base URL.
    pub fn new_http(url: String) -> (r: Self)
        ensures
            r.spec_endpoint() == (ControlEndpoint::Http { base_url: url }),
    {
        ClashController { endpoint: ControlEndpoint::Http { base_url: url } }
    }

    /// A controller for an endpoint that was chosen before.
    pub fn with_endpoint(endpoint: ControlEndpoint) -> (r: Self)
        ensures
            r.spec_endpoint() == endpoint,
    {
        ClashController { endpoint }
    }

    /// The endpoint that the requests go through.
    pub fn endpoint(&self) -> (r: &ControlEndpoint)
        ensures
            *r == self.spec_endpoint(),
    {
        &self.endpoint
    }

    /// A request without a body.
    fn plain(&self, operation: Operation, path: String) -> (r: Request)
        ensures
            is_request(r, operation, self.spec_endpoint(), path@, None),
    {
        let target = self.endpoint.target(path.as_str());
        Request { operation, method: method_for(operation), target, path, body: None }
    }

    /// A request whose body holds the fields as one JSON object.
    fn with_body(&self, operation: Operation, path: String, fields: &Vec<(String, String)>) -> (r:
        Result<Request, ClashError>)
        ensures
            r is Ok,
            is_request(
                r->Ok_0,
                operation,
                self.spec_endpoint(),
                path@,
                Some(crate::json::field_views(fields@)),
            ),
    {
        let target = self.endpoint.target(path.as_str());
        let encoded = encode_object(fields);
        assemble(operation, target, path, Some(encoded))
    }

    /// The first step of listing the proxies, from the reply to the request
    /// for the mode. A reply that fails ends the listing with its failure: no
    /// mode is made up for it. Every other reply gives the step for the mode
    /// that it holds.
    pub fn proxies_step(&self, reply: Reply<ConfigResponse>) -> (r: Result<
        ProxiesStep,
        ClashError,
    >)
        ensures
            match reply_failure(Operation::GetConfigs, reply) {
                Some(failure) => r is Err && r->Err_0@ == failure,
                None => r is Ok && is_proxies_step(
                    r->Ok_0,
                    self.spec_endpoint(),
                    reply.decoded.unwrap().mode,
                ),
            },
    {
        match read_mode(reply) {
            Ok(mode) => Ok(self.get_proxies(mode)),
            Err(error) => Err(error),
        }
    }

    /// The first step of listing the proxies, once the mode of the daemon is
    /// known: in direct mode the stand-in is shown and nothing is asked;
    /// in every other mode the proxies are asked for.
    pub fn get_proxies(&self, mode: Option<Mode>) -> (r: ProxiesStep)
        ensures
            is_proxies_step(r, self.spec_endpoint(), mode),
    {
        if mode_or_rule(mode) == Mode::Direct {
            let nothing = ProxySnapshot::new();
            ProxiesStep::Shown(reconcile(&nothing, Mode::Direct))
        } else {
            ProxiesStep::Fetch(self.plain(Operation::GetProxies, String::from_str("/proxies")))
        }
    }

    /// The request that selects a proxy of a group. There is one for every
    /// group and every proxy.
    pub fn select_proxy(&self, group_name: String, proxy_name: String) -> (r: Result<
        Request,
        ClashError,
    >)
        ensures
            r is Ok,
            is_request(
                r->Ok_0,
                Operation::SelectProxy,
                self.spec_endpoint(),
                proxy_path(group_name@),
                Some(select_fields(proxy_name@)),
            ),
    {
        let path = build_proxy_path(group_name.as_str());
        let mut fields: Vec<(String, String)> = Vec::new();
        fields.push((String::from_str("name"), proxy_name));
        assert(crate::json::field_views(fields@) =~= select_fields(proxy_name@));
        self.with_body(Operation::SelectProxy, path, &fields)
    }

    /// The request that tests the delay of a proxy.
    pub fn get_proxy_delay(&self, name: String, url: Option<String>, timeout: Option<i32>) -> (r:
        Request)
        ensures
            is_request(
                r,
                Operation::GetProxyDelay,
                self.spec_endpoint(),
                delay_path(
                    name@,
                    match url {
                        Some(url) => Some(url@),
                        None => None,
                    },
                    timeout,
                ),
                None,
            ),
    {
        let path = build_delay_path(name.as_str(), &url, timeout);
        self.plain(Operation::GetProxyDelay, path)
    }

    /// The request for the memory figures.
    pub fn get_memory(&self) -> (r: Request)
        ensures
            is_request(r, Operation::GetMemory, self.spec_endpoint(), memory_path(), None),
    {
        self.plain(Operation::GetMemory, String::from_str("/memory"))
    }

    /// The request for the connections.
    pub fn get_connections(&self) -> (r: Request)
        ensures
            is_request(
                r,
                Operation::GetConnections,
                self.spec_endpoint(),
                connections_path(),
                None,
            ),
    {
        self.plain(Operation::GetConnections, String::from_str("/connections"))
    }

    /// The request for the configuration.
    pub fn get_configs(&self) -> (r: Request)
        ensures
            is_request(r, Operation::GetConfigs, self.spec_endpoint(), configs_path(), None),
    {
        self.plain(Operation::GetConfigs, String::from_str("/configs"))
    }

    /// The request that patches the configuration with the fields given.
    /// There is one for every patch.
    pub fn update_config(&self, config: ConfigPatch) -> (r: Result<Request, ClashError>)
        ensures
            r is Ok,
            is_request(
                r->Ok_0,
                Operation::UpdateConfig,
                self.spec_endpoint(),
                configs_path(),
                Some(config@),
            ),
    {
        self.with_body(Operation::UpdateConfig, String::from_str("/configs"), config.fields())
    }

    /// The request that sets the mode of the daemon. There is one for every
    /// mode.
    pub fn set_mode(&self, mode: Mode) -> (r: Result<Request, ClashError>)
        ensures
            r is Ok,
            is_request(
                r->Ok_0,
                Operation::SetMode,
                self.spec_endpoint(),
                configs_path(),
                Some(mode_fields(mode)),
            ),
    {
        let mut fields: Vec<(String, String)> = Vec::new();
        fields.push((String::from_str("mode"), String::from_str(mode.as_str())));
        assert(crate::json::field_views(fields@) =~= mode_fields(mode));
        self.with_body(Operation::SetMode, String::from_str("/configs"), &fields)
    }

    /// The request whose reply holds the mode: that for the configuration.
    pub fn get_mode(&self) -> (r: Request)
        ensures
            is_request(r, Operation::GetConfigs, self.spec_endpoint(), configs_path(), None),
    {
        self.get_configs()
    }
}

} // verus!
